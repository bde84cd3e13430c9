//! Events: their names, and the operation that lists them.

use vstd::prelude::*;
use vstd::std_specs::convert::FromSpecImpl;
use crate::error::{WorkOsError, WorkOsResult};
use crate::identifiers::OrganizationId;
use crate::known_or_unknown::KnownOrUnknown;
use crate::pagination::{text_of, PaginationParams};
use crate::query::{
    has_key, lemma_under_optional, lemma_under_other, lemma_under_repeated, optional_pair,
    pairs_under, push_optional, push_pair, repeated_pairs, Pairs,
};
use crate::request::{Request, RequestView};
use crate::web_address::{join_url, joined_url};
use crate::workos::WorkOs;

verus! {

/// The names of the events that this library knows.
#[derive(Clone, Copy, Debug, PartialEq, Eq, Structural)]
pub enum EventName {
    /// `connection.activated`
    ConnectionActivated,
    /// `connection.deactivated`
    ConnectionDeactivated,
    /// `connection.deleted`
    ConnectionDeleted,
    /// `dsync.activated`
    DsyncActivated,
    /// `dsync.deleted`
    DsyncDeleted,
    /// `dsync.group.created`
    DsyncGroupCreated,
    /// `dsync.group.deleted`
    DsyncGroupDeleted,
    /// `dsync.group.updated`
    DsyncGroupUpdated,
    /// `dsync.group.user_added`
    DsyncGroupUserAdded,
    /// `dsync.group.user_removed`
    DsyncGroupUserRemoved,
    /// `dsync.user.created`
    DsyncUserCreated,
    /// `dsync.user.deleted`
    DsyncUserDeleted,
    /// `dsync.user.updated`
    DsyncUserUpdated,
}

impl EventName {
    /// The name as the API writes it.
    pub open spec fn wire(self) -> Seq<char> {
        match self {
            EventName::ConnectionActivated => "connection.activated"@,
            EventName::ConnectionDeactivated => "connection.deactivated"@,
            EventName::ConnectionDeleted => "connection.deleted"@,
            EventName::DsyncActivated => "dsync.activated"@,
            EventName::DsyncDeleted => "dsync.deleted"@,
            EventName::DsyncGroupCreated => "dsync.group.created"@,
            EventName::DsyncGroupDeleted => "dsync.group.deleted"@,
            EventName::DsyncGroupUpdated => "dsync.group.updated"@,
            EventName::DsyncGroupUserAdded => "dsync.group.user_added"@,
            EventName::DsyncGroupUserRemoved => "dsync.group.user_removed"@,
            EventName::DsyncUserCreated => "dsync.user.created"@,
            EventName::DsyncUserDeleted => "dsync.user.deleted"@,
            EventName::DsyncUserUpdated => "dsync.user.updated"@,
        }
    }

    /// The name as the API writes it.
    pub fn as_str(&self) -> (text: &'static str)
        ensures
            text@ == self.wire(),
    {
        match self {
            EventName::ConnectionActivated => "connection.activated",
            EventName::ConnectionDeactivated => "connection.deactivated",
            EventName::ConnectionDeleted => "connection.deleted",
            EventName::DsyncActivated => "dsync.activated",
            EventName::DsyncDeleted => "dsync.deleted",
            EventName::DsyncGroupCreated => "dsync.group.created",
            EventName::DsyncGroupDeleted => "dsync.group.deleted",
            EventName::DsyncGroupUpdated => "dsync.group.updated",
            EventName::DsyncGroupUserAdded => "dsync.group.user_added",
            EventName::DsyncGroupUserRemoved => "dsync.group.user_removed",
            EventName::DsyncUserCreated => "dsync.user.created",
            EventName::DsyncUserDeleted => "dsync.user.deleted",
            EventName::DsyncUserUpdated => "dsync.user.updated",
        }
    }
}

/// Compares two texts with `str::eq`. Trusted: two texts are equal exactly
/// where they hold the same characters.
#[verifier::external_body]
fn same_text(a: &str, b: &str) -> (same: bool)
    ensures
        same == (a@ == b@),
{
    a == b
}

/// The text that stands for an event name on the wire, known or not.
pub open spec fn tag_wire(tag: KnownOrUnknown<EventName, String>) -> Seq<char> {
    match tag {
        KnownOrUnknown::Known(name) => name.wire(),
        KnownOrUnknown::Unknown(raw) => raw@,
    }
}

impl EventName {
    /// Reads an event name from the wire. A text that is the name of a known
    /// event gives that event; any other text is kept as it is. Either way
    /// writing the result gives `text` again.
    pub fn from_wire(text: &str) -> (tag: KnownOrUnknown<EventName, String>)
        ensures
            tag_wire(tag) == text@,
            forall|name: EventName|
                #[trigger] name.wire() == text@ ==> tag == KnownOrUnknown::<
                    EventName,
                    String,
                >::Known(name),
    {
        let tag = if same_text(text, "connection.activated") {
            KnownOrUnknown::Known(EventName::ConnectionActivated)
        } else if same_text(text, "connection.deactivated") {
            KnownOrUnknown::Known(EventName::ConnectionDeactivated)
        } else if same_text(text, "connection.deleted") {
            KnownOrUnknown::Known(EventName::ConnectionDeleted)
        } else if same_text(text, "dsync.activated") {
            KnownOrUnknown::Known(EventName::DsyncActivated)
        } else if same_text(text, "dsync.deleted") {
            KnownOrUnknown::Known(EventName::DsyncDeleted)
        } else if same_text(text, "dsync.group.created") {
            KnownOrUnknown::Known(EventName::DsyncGroupCreated)
        } else if same_text(text, "dsync.group.deleted") {
            KnownOrUnknown::Known(EventName::DsyncGroupDeleted)
        } else if same_text(text, "dsync.group.updated") {
            KnownOrUnknown::Known(EventName::DsyncGroupUpdated)
        } else if same_text(text, "dsync.group.user_added") {
            KnownOrUnknown::Known(EventName::DsyncGroupUserAdded)
        } else if same_text(text, "dsync.group.user_removed") {
            KnownOrUnknown::Known(EventName::DsyncGroupUserRemoved)
        } else if same_text(text, "dsync.user.created") {
            KnownOrUnknown::Known(EventName::DsyncUserCreated)
        } else if same_text(text, "dsync.user.deleted") {
            KnownOrUnknown::Known(EventName::DsyncUserDeleted)
        } else if same_text(text, "dsync.user.updated") {
            KnownOrUnknown::Known(EventName::DsyncUserUpdated)
        } else {
            KnownOrUnknown::Unknown(text.to_owned())
        };
        proof {
            assert forall|name: EventName| #[trigger] name.wire() == text@ implies tag
                == KnownOrUnknown::<EventName, String>::Known(name) by {
                match tag {
                    KnownOrUnknown::Known(found) => {
                        Self::lemma_wire_injective(name, found);
                    },
                    KnownOrUnknown::Unknown(_) => {},
                }
            }
        }
        tag
    }

    /// The text of an event name as it goes to the wire.
    pub fn tag_as_str(tag: &KnownOrUnknown<EventName, String>) -> (text: &str)
        ensures
            text@ == tag_wire(*tag),
    {
        match tag {
            KnownOrUnknown::Known(name) => name.as_str(),
            KnownOrUnknown::Unknown(raw) => raw.as_str(),
        }
    }

    /// What tells the names apart: the length of a name and three of its
    /// characters.
    spec fn mark(self) -> (nat, char, char, char) {
        match self {
            EventName::ConnectionActivated => (20, 'c', 'a', 'c'),
            EventName::ConnectionDeactivated => (22, 'c', 'd', 'e'),
            EventName::ConnectionDeleted => (18, 'c', 'd', 'e'),
            EventName::DsyncActivated => (15, 'd', 'a', 't'),
            EventName::DsyncDeleted => (13, 'd', 'e', 'd'),
            EventName::DsyncGroupCreated => (19, 'd', '.', 'c'),
            EventName::DsyncGroupDeleted => (19, 'd', '.', 'd'),
            EventName::DsyncGroupUpdated => (19, 'd', '.', 'u'),
            EventName::DsyncGroupUserAdded => (22, 'd', '.', 'u'),
            EventName::DsyncGroupUserRemoved => (24, 'd', '.', 'u'),
            EventName::DsyncUserCreated => (18, 'd', 'c', 'r'),
            EventName::DsyncUserDeleted => (18, 'd', 'd', 'e'),
            EventName::DsyncUserUpdated => (18, 'd', 'u', 'p'),
        }
    }

    /// The mark of an event is read off its name.
    proof fn lemma_mark(self)
        ensures
            self.wire().len() == self.mark().0,
            self.wire()[0] == self.mark().1,
            self.wire()[11] == self.mark().2,
            self.wire()[12] == self.mark().3,
    {
        match self {
            EventName::ConnectionActivated => {
                reveal_strlit("connection.activated");
            },
            EventName::ConnectionDeactivated => {
                reveal_strlit("connection.deactivated");
            },
            EventName::ConnectionDeleted => {
                reveal_strlit("connection.deleted");
            },
            EventName::DsyncActivated => {
                reveal_strlit("dsync.activated");
            },
            EventName::DsyncDeleted => {
                reveal_strlit("dsync.deleted");
            },
            EventName::DsyncGroupCreated => {
                reveal_strlit("dsync.group.created");
            },
            EventName::DsyncGroupDeleted => {
                reveal_strlit("dsync.group.deleted");
            },
            EventName::DsyncGroupUpdated => {
                reveal_strlit("dsync.group.updated");
            },
            EventName::DsyncGroupUserAdded => {
                reveal_strlit("dsync.group.user_added");
            },
            EventName::DsyncGroupUserRemoved => {
                reveal_strlit("dsync.group.user_removed");
            },
            EventName::DsyncUserCreated => {
                reveal_strlit("dsync.user.created");
            },
            EventName::DsyncUserDeleted => {
                reveal_strlit("dsync.user.deleted");
            },
            EventName::DsyncUserUpdated => {
                reveal_strlit("dsync.user.updated");
            },
        }
    }

    /// No two known events share a name.
    pub proof fn lemma_wire_injective(a: EventName, b: EventName)
        requires
            a.wire() == b.wire(),
        ensures
            a == b,
    {
        a.lemma_mark();
        b.lemma_mark();
    }
}

/// A filter on the names of the events to list, in the order in which the
/// names are sent. An empty filter lets every event through.
#[derive(Debug)]
pub struct EventFilters(Vec<EventName>);

impl View for EventFilters {
    type V = Seq<EventName>;

    closed spec fn view(&self) -> Seq<EventName> {
        self.0@
    }
}

impl From<Vec<EventName>> for EventFilters {
    /// The filter on the given names, in their order.
    fn from(names: Vec<EventName>) -> (filter: Self)
        ensures
            filter@ == names@,
    {
        EventFilters(names)
    }
}

impl FromSpecImpl<Vec<EventName>> for EventFilters {
    open spec fn obeys_from_spec() -> bool {
        true
    }

    closed spec fn from_spec(names: Vec<EventName>) -> Self {
        EventFilters(names)
    }
}

impl Clone for EventFilters {
    fn clone(&self) -> (copy: Self)
        ensures
            copy@ == self@,
    {
        EventFilters(self.0.clone())
    }
}

impl EventFilters {
    /// Whether the filter names no event.
    pub fn is_empty(&self) -> (empty: bool)
        ensures
            empty == (self@.len() == 0),
    {
        self.0.is_empty()
    }

    /// The number of names in the filter.
    pub fn len(&self) -> (n: usize)
        ensures
            n == self@.len(),
    {
        self.0.len()
    }

    /// The name at position `i`.
    pub fn get(&self, i: usize) -> (name: Option<EventName>)
        ensures
            name == (if i < self@.len() {
                Some(self@[i as int])
            } else {
                None
            }),
    {
        if i < self.0.len() {
            Some(self.0[i])
        } else {
            None
        }
    }

    /// The names of the filter as the API writes them, in order.
    pub open spec fn wire_names(self) -> Seq<Seq<char>> {
        Seq::new(self@.len(), |i: int| self@[i].wire())
    }
}

/// The key under which each name of an event filter is sent.
pub open spec fn events_key() -> Seq<char> {
    "events[]"@
}

/// The parameters of the operation that lists events.
#[derive(Debug)]
pub struct ListEventsParams<'a> {
    /// The pagination fields.
    pub pagination: PaginationParams<'a>,
    /// The names of the events to list; empty for all events.
    pub events: EventFilters,
    /// List only the events of this organization.
    pub organization_id: Option<&'a OrganizationId>,
    /// List only the events from this date on, in ISO 8601. Without
    /// `range_end` this means every event since then. It excludes the
    /// `after` cursor of the pagination fields; the API, not this library,
    /// rejects a request that holds both.
    pub range_start: Option<&'a str>,
    /// List only the events up to this date, in ISO 8601.
    pub range_end: Option<&'a str>,
}

impl<'a> ListEventsParams<'a> {
    /// The organization as it is sent.
    pub open spec fn organization_text(self) -> Option<Seq<char>> {
        match self.organization_id {
            Some(id) => Some(id@),
            None => None,
        }
    }

    /// The pairs that follow the event filter: `organization_id`,
    /// `range_start` and `range_end`, each only where it is present.
    pub open spec fn scalar_pairs(self) -> Pairs {
        optional_pair("organization_id"@, self.organization_text()) + optional_pair(
            "range_start"@,
            text_of(self.range_start),
        ) + optional_pair("range_end"@, text_of(self.range_end))
    }

    /// The query of the request: the pagination fields, then one pair for
    /// each name of the event filter, in the order of the filter, then the
    /// fields of the operation that are present.
    pub open spec fn query(self) -> Pairs {
        self.pagination.pairs() + repeated_pairs(events_key(), self.events.wire_names())
            + self.scalar_pairs()
    }

    /// Composes the query of the request. The pairs under the key of the
    /// event filter are those of the filter, in its order; for an empty
    /// filter no pair stands under that key.
    pub fn to_query(&self) -> (pairs: Vec<(String, String)>)
        ensures
            pairs.deep_view() == self.query(),
            pairs_under(pairs.deep_view(), events_key()) == repeated_pairs(
                events_key(),
                self.events.wire_names(),
            ),
            self.events@.len() == 0 ==> forall|i: int|
                0 <= i < pairs.deep_view().len() ==> (#[trigger] pairs.deep_view()[i]).0
                    != events_key(),
    {
        let pairs = self.compose();
        proof {
            lemma_filter_order(*self);
            if self.events@.len() == 0 {
                lemma_empty_filter_omitted(*self);
            }
        }
        pairs
    }

    /// Writes the pairs of the query, field by field.
    fn compose(&self) -> (pairs: Vec<(String, String)>)
        ensures
            pairs.deep_view() == self.query(),
    {
        let mut pairs: Vec<(String, String)> = Vec::new();
        assert(pairs.deep_view() =~= Seq::empty());
        self.pagination.append_to(&mut pairs);
        let ghost head = pairs.deep_view();
        assert(head =~= self.pagination.pairs());
        let n: usize = self.events.len();
        let mut i: usize = 0;
        while i < n
            invariant
                i <= n,
                n == self.events@.len(),
                pairs.deep_view() == head + repeated_pairs(
                    events_key(),
                    self.events.wire_names().take(i as int),
                ),
            decreases n - i,
        {
            match self.events.get(i) {
                Some(name) => {
                    push_pair(&mut pairs, "events[]", name.as_str());
                },
                None => {},
            }
            i = i + 1;
            assert(pairs.deep_view() =~= head + repeated_pairs(
                events_key(),
                self.events.wire_names().take(i as int),
            ));
        }
        assert(self.events.wire_names().take(n as int) =~= self.events.wire_names());
        match self.organization_id {
            Some(id) => {
                push_pair(&mut pairs, "organization_id", id.as_str());
            },
            None => {},
        }
        push_optional(&mut pairs, "range_start", self.range_start);
        push_optional(&mut pairs, "range_end", self.range_end);
        assert(pairs.deep_view() =~= self.query());
        pairs
    }
}

/// The key of the event filter is the key of no other field.
proof fn lemma_events_key_apart()
    ensures
        "order"@ != events_key(),
        "limit"@ != events_key(),
        "after"@ != events_key(),
        "before"@ != events_key(),
        "organization_id"@ != events_key(),
        "range_start"@ != events_key(),
        "range_end"@ != events_key(),
{
    reveal_strlit("events[]");
    reveal_strlit("order");
    reveal_strlit("limit");
    reveal_strlit("after");
    reveal_strlit("before");
    reveal_strlit("organization_id");
    reveal_strlit("range_start");
    reveal_strlit("range_end");
    assert("order"@.len() != events_key().len());
    assert("limit"@.len() != events_key().len());
    assert("after"@.len() != events_key().len());
    assert("before"@.len() != events_key().len());
    assert("organization_id"@.len() != events_key().len());
    assert("range_start"@.len() != events_key().len());
    assert("range_end"@.len() != events_key().len());
}

/// Filter ordering: the pairs of a composed query that stand under the key
/// of the event filter are one pair for each name of the filter, in the
/// order of the filter, and no other field of the request uses that key.
pub proof fn lemma_filter_order(params: ListEventsParams<'_>)
    ensures
        pairs_under(params.query(), events_key()) == repeated_pairs(
            events_key(),
            params.events.wire_names(),
        ),
{
    broadcast use Seq::filter_distributes_over_add;

    let key = events_key();
    let page = params.pagination;
    lemma_events_key_apart();
    lemma_under_other(key, "order"@, page.order.wire());
    lemma_under_optional(key, "limit"@, page.limit_text());
    lemma_under_optional(key, "after"@, text_of(page.after));
    lemma_under_optional(key, "before"@, text_of(page.before));
    lemma_under_repeated(key, params.events.wire_names());
    lemma_under_optional(key, "organization_id"@, params.organization_text());
    lemma_under_optional(key, "range_start"@, text_of(params.range_start));
    lemma_under_optional(key, "range_end"@, text_of(params.range_end));
    assert(pairs_under(page.pairs(), key) =~= Seq::empty());
    assert(pairs_under(params.scalar_pairs(), key) =~= Seq::empty());
    assert(pairs_under(params.query(), key) =~= repeated_pairs(key, params.events.wire_names()));
}

/// Filter omission: the query composed for an empty event filter holds no
/// pair under the key of the filter.
pub proof fn lemma_empty_filter_omitted(params: ListEventsParams<'_>)
    requires
        params.events@.len() == 0,
    ensures
        forall|i: int|
            0 <= i < params.query().len() ==> (#[trigger] params.query()[i]).0 != events_key(),
{
    let key = events_key();
    let query = params.query();
    lemma_filter_order(params);
    assert(pairs_under(query, key).len() == 0);
    assert forall|i: int| 0 <= i < query.len() implies (#[trigger] query[i]).0 != key by {
        if query[i].0 == key {
            query.lemma_filter_contains(has_key(key), i);
        }
    }
}

/// The errors that are specific to listing events. There are none: the one
/// variant holds a value of a type without values, so none can be built.
#[derive(Debug)]
pub enum ListEventsError {
    /// No error.
    Never(core::convert::Infallible),
}

impl From<ListEventsError> for WorkOsError<ListEventsError> {
    fn from(err: ListEventsError) -> (wrapped: Self)
        ensures
            wrapped == WorkOsError::Operation(err),
    {
        WorkOsError::Operation(err)
    }
}

impl FromSpecImpl<ListEventsError> for WorkOsError<ListEventsError> {
    open spec fn obeys_from_spec() -> bool {
        true
    }

    open spec fn from_spec(err: ListEventsError) -> Self {
        WorkOsError::Operation(err)
    }
}

/// The path of the collection of events, resolved against the base URL.
pub open spec fn events_path() -> Seq<char> {
    "/events"@
}

/// The operations on events of one client.
#[derive(Debug)]
pub struct Events<'a> {
    workos: &'a WorkOs,
}

impl<'a> Events<'a> {
    /// The operations on events of `workos`.
    pub fn new(workos: &'a WorkOs) -> (events: Self)
        ensures
            events.client() == workos,
    {
        Events { workos }
    }

    /// The client whose events these are.
    pub closed spec fn client(self) -> &'a WorkOs {
        self.workos
    }

    /// Describes the listing request for a collection whose URL was resolved
    /// to `url`: the composed query of `params` and the client's API key as
    /// the bearer token. The error of a failed resolution is handed on.
    pub fn list_events_at(
        &self,
        url: Result<String, url::ParseError>,
        params: &ListEventsParams<'_>,
    ) -> (r: WorkOsResult<Request, ()>)
        ensures
            match url {
                Ok(text) => r matches Ok(built) && built@ == (RequestView {
                    url: text@,
                    query: params.query(),
                    bearer: Some(self.client()@.key),
                }),
                Err(e) => r matches Err(WorkOsError::UrlParseError(handed)) && handed == e,
            },
    {
        match url {
            Ok(url) => {
                let query = params.to_query();
                let bearer = self.workos.key().as_str().to_owned();
                Ok(Request { url, query, bearer: Some(bearer) })
            },
            Err(e) => Err(WorkOsError::UrlParseError(e)),
        }
    }
}

/// The request of a listing of events for the client modelled by `client`,
/// where the URL of the collection can be built.
pub open spec fn list_events_request(
    client: crate::workos::WorkOsView,
    params: ListEventsParams<'_>,
) -> Option<RequestView> {
    match joined_url(client.base_url, events_path()) {
        Some(url) => Some(RequestView { url, query: params.query(), bearer: Some(client.key) }),
        None => None,
    }
}

/// The listing of events.
pub trait ListEvents {
    /// Describes the one request that fetches a page of events, up to 30
    /// days old. The page is read from the response with
    /// [`check_status`](crate::error::check_status) and
    /// [`into_page`](crate::pagination::PaginatedList::into_page); to go on,
    /// list again with the page's cursor as `pagination.after`.
    fn list_events(&self, params: &ListEventsParams<'_>) -> WorkOsResult<Request, ()>;
}

impl ListEvents for Events<'_> {
    /// The request goes to the collection of events under the client's base
    /// URL, carries the composed query of `params`, and is authorized with
    /// the client's API key. It fails only where that URL cannot be built.
    fn list_events(&self, params: &ListEventsParams<'_>) -> (r: WorkOsResult<Request, ()>)
        ensures
            match list_events_request(self.client()@, *params) {
                Some(request) => r matches Ok(built) && built@ == request,
                None => r matches Err(WorkOsError::UrlParseError(_)),
            },
    {
        self.list_events_at(join_url(self.workos.base_url(), "/events"), params)
    }
}

} // verus!
