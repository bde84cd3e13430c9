//! The description of a request that the transport is to send.

use vstd::prelude::*;
use crate::query::Pairs;

verus! {

/// A `GET` request: where it goes, its query and its authorization.
#[derive(Debug, PartialEq, Eq)]
pub struct Request {
    /// The URL of the resource, without the query.
    pub url: String,
    /// The query parameters, in the order in which they are sent.
    pub query: Vec<(String, String)>,
    /// The bearer token of the `Authorization` header, where one is sent.
    pub bearer: Option<String>,
}

/// The model of a [`Request`].
pub ghost struct RequestView {
    /// The URL of the resource.
    pub url: Seq<char>,
    /// The query parameters, in order.
    pub query: Pairs,
    /// The bearer token, where one is sent.
    pub bearer: Option<Seq<char>>,
}

impl View for Request {
    type V = RequestView;

    open spec fn view(&self) -> RequestView {
        RequestView {
            url: self.url@,
            query: self.query.deep_view(),
            bearer: match self.bearer {
                Some(token) => Some(token@),
                None => None,
            },
        }
    }
}

} // verus!
