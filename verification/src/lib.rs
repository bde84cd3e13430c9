//! The core of a client of the WorkOS API, without its transport.
//!
//! The library composes the query of a listing from typed parameters, reads
//! a page and its cursor from a listing response, and decides the steps of
//! the lookup of a client's key set, which is fetched once and then served
//! from a slot that every handle of the client shares. Sending a request and
//! holding a lock are left to the caller: each operation here describes the
//! request to send and takes what came back.

pub mod error;
pub mod events;
pub mod identifiers;
pub mod key_set;
pub mod known_or_unknown;
pub mod pagination;
pub mod query;
pub mod request;
pub mod user_management;
pub mod web_address;
pub mod workos;

pub use crate::error::{WorkOsError, WorkOsResult};
pub use crate::identifiers::{ApiKey, ClientId, OrganizationId};
pub use crate::known_or_unknown::KnownOrUnknown;
pub use crate::pagination::{
    ListMetadata, PaginatedList, PaginatedPage, PaginationOrder, PaginationParams,
};
pub use crate::workos::{WorkOs, WorkOsBuilder};
