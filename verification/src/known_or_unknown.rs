//! Values of an enumeration that the server may extend.

use vstd::prelude::*;

verus! {

/// A value that is either one of the known values of an enumeration or, where
/// the server sent something else, what it sent.
#[derive(Debug, PartialEq, Eq)]
pub enum KnownOrUnknown<K, U> {
    /// A value that this library knows.
    Known(K),
    /// A value that this library does not know, kept as it arrived.
    Unknown(U),
}

} // verus!
