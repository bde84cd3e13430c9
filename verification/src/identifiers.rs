//! The opaque identifiers that a client is configured with.
//!
//! Each is a string that the client never interprets. Their views are the
//! text they hold.

use vstd::prelude::*;
use vstd::std_specs::convert::FromSpecImpl;

verus! {

/// An API key, sent verbatim as the bearer token of the requests to the API.
#[derive(Debug, PartialEq, Eq)]
pub struct ApiKey(String);

impl View for ApiKey {
    type V = Seq<char>;

    closed spec fn view(&self) -> Seq<char> {
        self.0@
    }
}

impl ApiKey {
    /// The text of the key.
    pub fn as_str(&self) -> (text: &str)
        ensures
            text@ == self@,
    {
        self.0.as_str()
    }
}

impl Clone for ApiKey {
    fn clone(&self) -> (copy: Self)
        ensures
            copy == *self,
    {
        ApiKey(self.0.clone())
    }
}

impl<'a> From<&'a str> for ApiKey {
    /// Takes a copy of `text` as the key.
    fn from(text: &'a str) -> (made: Self)
        ensures
            made@ == text@,
    {
        ApiKey(text.to_owned())
    }
}

/// A `String` has no constructor in specifications, so `from` is described
/// by its own postcondition and not by `from_spec`.
impl<'a> FromSpecImpl<&'a str> for ApiKey {
    open spec fn obeys_from_spec() -> bool {
        false
    }

    open spec fn from_spec(text: &'a str) -> Self {
        arbitrary()
    }
}

impl From<String> for ApiKey {
    /// Takes `text` as the key.
    fn from(text: String) -> (made: Self)
        ensures
            made@ == text@,
    {
        ApiKey(text)
    }
}

impl FromSpecImpl<String> for ApiKey {
    open spec fn obeys_from_spec() -> bool {
        false
    }

    open spec fn from_spec(text: String) -> Self {
        arbitrary()
    }
}

/// The identifier of a client application, from which the location of its
/// key set is derived.
#[derive(Debug, PartialEq, Eq)]
pub struct ClientId(String);

impl View for ClientId {
    type V = Seq<char>;

    closed spec fn view(&self) -> Seq<char> {
        self.0@
    }
}

impl ClientId {
    /// The text of the client identifier.
    pub fn as_str(&self) -> (text: &str)
        ensures
            text@ == self@,
    {
        self.0.as_str()
    }
}

impl Clone for ClientId {
    fn clone(&self) -> (copy: Self)
        ensures
            copy == *self,
    {
        ClientId(self.0.clone())
    }
}

impl<'a> From<&'a str> for ClientId {
    /// Takes a copy of `text` as the client identifier.
    fn from(text: &'a str) -> (made: Self)
        ensures
            made@ == text@,
    {
        ClientId(text.to_owned())
    }
}

/// A `String` has no constructor in specifications, so `from` is described
/// by its own postcondition and not by `from_spec`.
impl<'a> FromSpecImpl<&'a str> for ClientId {
    open spec fn obeys_from_spec() -> bool {
        false
    }

    open spec fn from_spec(text: &'a str) -> Self {
        arbitrary()
    }
}

impl From<String> for ClientId {
    /// Takes `text` as the client identifier.
    fn from(text: String) -> (made: Self)
        ensures
            made@ == text@,
    {
        ClientId(text)
    }
}

impl FromSpecImpl<String> for ClientId {
    open spec fn obeys_from_spec() -> bool {
        false
    }

    open spec fn from_spec(text: String) -> Self {
        arbitrary()
    }
}

/// The identifier of an organization.
#[derive(Debug, PartialEq, Eq)]
pub struct OrganizationId(String);

impl View for OrganizationId {
    type V = Seq<char>;

    closed spec fn view(&self) -> Seq<char> {
        self.0@
    }
}

impl OrganizationId {
    /// The text of the organization identifier.
    pub fn as_str(&self) -> (text: &str)
        ensures
            text@ == self@,
    {
        self.0.as_str()
    }
}

impl Clone for OrganizationId {
    fn clone(&self) -> (copy: Self)
        ensures
            copy == *self,
    {
        OrganizationId(self.0.clone())
    }
}

impl<'a> From<&'a str> for OrganizationId {
    /// Takes a copy of `text` as the organization identifier.
    fn from(text: &'a str) -> (made: Self)
        ensures
            made@ == text@,
    {
        OrganizationId(text.to_owned())
    }
}

/// A `String` has no constructor in specifications, so `from` is described
/// by its own postcondition and not by `from_spec`.
impl<'a> FromSpecImpl<&'a str> for OrganizationId {
    open spec fn obeys_from_spec() -> bool {
        false
    }

    open spec fn from_spec(text: &'a str) -> Self {
        arbitrary()
    }
}

impl From<String> for OrganizationId {
    /// Takes `text` as the organization identifier.
    fn from(text: String) -> (made: Self)
        ensures
            made@ == text@,
    {
        OrganizationId(text)
    }
}

impl FromSpecImpl<String> for OrganizationId {
    open spec fn obeys_from_spec() -> bool {
        false
    }

    open spec fn from_spec(text: String) -> Self {
        arbitrary()
    }
}

} // verus!
