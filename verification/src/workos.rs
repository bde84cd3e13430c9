//! The client: what it is configured with, and how it is built.

use vstd::prelude::*;
use crate::events::Events;
use crate::identifiers::{ApiKey, ClientId};
use crate::user_management::UserManagement;
use crate::web_address::{parse_url, parsed_url};

verus! {

/// The model of a client: the texts it is configured with.
pub ghost struct WorkOsView {
    /// The serialization of the base URL.
    pub base_url: Seq<char>,
    /// The API key.
    pub key: Seq<char>,
    /// The client identifier, where one is set.
    pub client_id: Option<Seq<char>>,
}

/// The client.
#[derive(Debug)]
pub struct WorkOs {
    base_url: String,
    key: ApiKey,
    client_id: Option<ClientId>,
}

/// The model of an optional client identifier.
pub open spec fn client_id_text(client_id: Option<ClientId>) -> Option<Seq<char>> {
    match client_id {
        Some(id) => Some(id@),
        None => None,
    }
}

/// The base URL of a client for which none was set.
pub open spec fn default_base_url() -> Seq<char> {
    "https://api.workos.com/"@
}

impl View for WorkOs {
    type V = WorkOsView;

    closed spec fn view(&self) -> WorkOsView {
        WorkOsView {
            base_url: self.base_url@,
            key: self.key@,
            client_id: client_id_text(self.client_id),
        }
    }
}

impl WorkOs {
    /// A client with the given API key, the default base URL and no client
    /// identifier.
    pub fn new(key: &ApiKey) -> (client: Self)
        ensures
            client@ == (WorkOsView { base_url: default_base_url(), key: key@, client_id: None }),
    {
        WorkOsBuilder::new(key).build()
    }

    /// A builder that starts from the given API key.
    pub fn builder(key: &ApiKey) -> (builder: WorkOsBuilder<'_>)
        ensures
            builder@ == (WorkOsView { base_url: default_base_url(), key: key@, client_id: None }),
    {
        WorkOsBuilder::new(key)
    }

    /// The serialization of the base URL.
    pub fn base_url(&self) -> (text: &str)
        ensures
            text@ == self@.base_url,
    {
        self.base_url.as_str()
    }

    /// The API key.
    pub fn key(&self) -> (key: &ApiKey)
        ensures
            key@ == self@.key,
    {
        &self.key
    }

    /// The client identifier, where one was set.
    pub fn client_id(&self) -> (client_id: Option<&ClientId>)
        ensures
            match client_id {
                Some(id) => self@.client_id == Some(id@),
                None => self@.client_id is None,
            },
    {
        self.client_id.as_ref()
    }

    /// The operations on events of this client.
    pub fn events(&self) -> (events: Events<'_>)
        ensures
            events.client() == self,
    {
        Events::new(self)
    }

    /// The operations of user management of this client.
    pub fn user_management(&self) -> (user_management: UserManagement<'_>)
        ensures
            user_management.client() == self,
    {
        UserManagement::new(self)
    }
}

impl Clone for WorkOs {
    fn clone(&self) -> (copy: Self)
        ensures
            copy@ == self@,
    {
        WorkOs {
            base_url: self.base_url.clone(),
            key: self.key.clone(),
            client_id: match &self.client_id {
                Some(id) => Some(id.clone()),
                None => None,
            },
        }
    }
}

/// A builder of a client.
#[derive(Debug)]
pub struct WorkOsBuilder<'a> {
    base_url: String,
    key: &'a ApiKey,
    client_id: Option<&'a ClientId>,
}

impl<'a> View for WorkOsBuilder<'a> {
    type V = WorkOsView;

    closed spec fn view(&self) -> WorkOsView {
        WorkOsView {
            base_url: self.base_url@,
            key: self.key@,
            client_id: match self.client_id {
                Some(id) => Some(id@),
                None => None,
            },
        }
    }
}

impl<'a> WorkOsBuilder<'a> {
    /// A builder with the given API key, the default base URL and no client
    /// identifier.
    pub fn new(key: &'a ApiKey) -> (builder: Self)
        ensures
            builder@ == (WorkOsView { base_url: default_base_url(), key: key@, client_id: None }),
    {
        WorkOsBuilder { base_url: "https://api.workos.com/".to_owned(), key, client_id: None }
    }

    /// Sets the base URL to the URL that `base_url` is parsed to, and fails
    /// where `base_url` is no absolute URL.
    pub fn base_url(self, base_url: &'a str) -> (r: Result<Self, url::ParseError>)
        ensures
            match r {
                Ok(builder) => parsed_url(base_url@) == Some(builder@.base_url)
                    && builder@.key == self@.key && builder@.client_id == self@.client_id,
                Err(_) => parsed_url(base_url@) is None,
            },
    {
        self.with_parsed_base_url(parse_url(base_url))
    }

    /// Takes what the parsing of a base URL gave: the serialization of the
    /// URL becomes the base URL, and the error of a failed parsing is handed
    /// on.
    pub fn with_parsed_base_url(self, parsed: Result<String, url::ParseError>) -> (r: Result<
        Self,
        url::ParseError,
    >)
        ensures
            match parsed {
                Ok(text) => r matches Ok(builder) && builder@ == (WorkOsView {
                    base_url: text@,
                    ..self@
                }),
                Err(e) => r matches Err(handed) && handed == e,
            },
    {
        match parsed {
            Ok(text) => Ok(
                WorkOsBuilder { base_url: text, key: self.key, client_id: self.client_id },
            ),
            Err(e) => Err(e),
        }
    }

    /// Sets the API key.
    pub fn key(self, key: &'a ApiKey) -> (builder: Self)
        ensures
            builder@ == (WorkOsView { key: key@, ..self@ }),
    {
        WorkOsBuilder { base_url: self.base_url, key, client_id: self.client_id }
    }

    /// Sets the client identifier.
    pub fn client_id(self, client_id: &'a ClientId) -> (builder: Self)
        ensures
            builder@ == (WorkOsView { client_id: Some(client_id@), ..self@ }),
    {
        WorkOsBuilder { base_url: self.base_url, key: self.key, client_id: Some(client_id) }
    }

    /// The client that the builder describes.
    pub fn build(self) -> (client: WorkOs)
        ensures
            client@ == self@,
    {
        WorkOs {
            base_url: self.base_url,
            key: self.key.clone(),
            client_id: match self.client_id {
                Some(id) => Some(id.clone()),
                None => None,
            },
        }
    }
}

} // verus!
