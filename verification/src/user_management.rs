//! User management: the lookup of a client's key set.
//!
//! A lookup takes three steps, of which this module decides and the caller
//! carries out. First [`UserManagement::require_client_id`], before anything
//! is locked or sent. Then, with the lock of the client's slot held,
//! [`UserManagement::jwks`], which answers from the slot or asks for one
//! fetch. Last, still under the lock and only after a fetch,
//! [`KeySetSlot::complete`](crate::key_set::KeySetSlot::complete) with the
//! outcome of that fetch. A lock that cannot be taken ends the lookup with
//! [`JwksError::Poison`].

use vstd::prelude::*;
use crate::identifiers::ClientId;
use crate::key_set::{needs_fetch, KeySet, KeySetSlot};
use crate::request::{Request, RequestView};
use crate::web_address::{join_url, joined_url};
use crate::workos::WorkOs;

verus! {

/// An error of the lookup of a key set.
#[derive(Debug)]
pub enum JwksError {
    /// The client has no client identifier.
    MissingClientId,
    /// The lock of the slot could not be taken; the text says why.
    Poison(String),
    /// The URL of the key set could not be built.
    Url(url::ParseError),
}

/// What a lookup of the key set does next.
#[derive(Debug)]
pub enum JwksLookup {
    /// The slot holds the key set: this is a copy of it, and nothing is
    /// fetched.
    Cached(KeySet),
    /// The slot is empty: the key set of `source` is to be fetched with
    /// `request`, and the outcome handed to the slot.
    Fetch {
        /// The client identifier whose key set is fetched.
        source: ClientId,
        /// The request that fetches the key-set document.
        request: Request,
    },
}

/// The path of the key set of the client `client_id`, resolved against the
/// base URL.
pub open spec fn jwks_path(client_id: Seq<char>) -> Seq<char> {
    "/sso/jwks/"@ + client_id
}

/// The request that fetches a key set from `url`: no query and no
/// authorization.
pub open spec fn jwks_request(url: Seq<char>) -> RequestView {
    RequestView { url, query: Seq::empty(), bearer: None }
}

/// The operations of user management of one client.
#[derive(Debug)]
pub struct UserManagement<'a> {
    workos: &'a WorkOs,
}

impl<'a> UserManagement<'a> {
    /// The operations of user management of `workos`.
    pub fn new(workos: &'a WorkOs) -> (user_management: Self)
        ensures
            user_management.client() == workos,
    {
        UserManagement { workos }
    }

    /// The client whose user management this is.
    pub closed spec fn client(self) -> &'a WorkOs {
        self.workos
    }

    /// The first step of a lookup: the client identifier, or the error of a
    /// client that has none.
    pub fn require_client_id(&self) -> (r: Result<&ClientId, JwksError>)
        ensures
            match self.client()@.client_id {
                Some(id) => r matches Ok(found) && found@ == id,
                None => r matches Err(JwksError::MissingClientId),
            },
    {
        match self.workos.client_id() {
            Some(id) => Ok(id),
            None => Err(JwksError::MissingClientId),
        }
    }

    /// The URL of the key set of `client_id`: its path resolved against the
    /// client's base URL.
    pub fn get_jwks_url(&self, client_id: &ClientId) -> (r: Result<String, url::ParseError>)
        ensures
            match joined_url(self.client()@.base_url, jwks_path(client_id@)) {
                Some(url) => r matches Ok(text) && text@ == url,
                None => r is Err,
            },
    {
        let mut path = "/sso/jwks/".to_owned();
        path.append(client_id.as_str());
        join_url(self.workos.base_url(), path.as_str())
    }

    /// The second step of a lookup, with the lock of `slot` held. A client
    /// without identifier fails, whatever the slot holds. Else a slot that
    /// holds a key set answers with a copy of it. Else the key set is to be
    /// fetched from its URL, and the lookup fails where that URL cannot be
    /// built. The slot is not changed.
    pub fn jwks(&self, slot: &KeySetSlot) -> (r: Result<JwksLookup, JwksError>)
        ensures
            match self.client()@.client_id {
                None => r matches Err(JwksError::MissingClientId),
                Some(id) => match slot@ {
                    Some(key_set) => r matches Ok(JwksLookup::Cached(copy)) && copy@ == key_set,
                    None => match joined_url(self.client()@.base_url, jwks_path(id)) {
                        Some(url) => r matches Ok(JwksLookup::Fetch { source, request })
                            && source@ == id && request@ == jwks_request(url),
                        None => r matches Err(JwksError::Url(_)),
                    },
                },
            },
            r matches Ok(JwksLookup::Fetch { .. }) ==> needs_fetch(slot@),
    {
        let client_id = match self.require_client_id() {
            Ok(id) => id,
            Err(e) => {
                return Err(e);
            },
        };
        match slot.get() {
            Some(key_set) => Ok(JwksLookup::Cached(key_set)),
            None => Self::fetch_from(client_id, self.get_jwks_url(client_id)),
        }
    }

    /// Asks for the fetch of the key set of `source` from the URL that its
    /// path was resolved to. The error of a failed resolution ends the
    /// lookup.
    pub fn fetch_from(source: &ClientId, url: Result<String, url::ParseError>) -> (r: Result<
        JwksLookup,
        JwksError,
    >)
        ensures
            match url {
                Ok(text) => r matches Ok(JwksLookup::Fetch { source: from, request })
                    && from@ == source@ && request@ == jwks_request(text@),
                Err(e) => r matches Err(JwksError::Url(handed)) && handed == e,
            },
    {
        match url {
            Ok(url) => {
                let request = Request { url, query: Vec::new(), bearer: None };
                assert(request.query.deep_view() =~= Seq::empty());
                Ok(JwksLookup::Fetch { source: source.clone(), request })
            },
            Err(e) => Err(JwksError::Url(e)),
        }
    }
}

} // verus!
