//! Connection ids correlate the response of a call with its request.

use vstd::prelude::*;
use super::unique_id::{UniqueID, hex_u64};

verus! {

/// Identifies an outgoing call, so its response can be matched to it. Null means the message
/// is a send, which expects no response.
#[derive(Clone, Copy, PartialEq, Eq, Structural, Hash, Debug)]
pub struct ConnID {
    pub inner: UniqueID,
}

impl View for ConnID {
    type V = u64;

    open spec fn view(&self) -> u64 {
        self.inner@
    }
}

impl ConnID {
    /// The id with the given value.
    pub fn from_u64(id: u64) -> (r: Self)
        ensures
            r@ == id,
    {
        ConnID { inner: UniqueID { id } }
    }

    /// A random connection id.
    pub fn random() -> (r: Self) {
        Self { inner: UniqueID::random() }
    }

    /// The empty connection id (all zero bits), used for sends.
    pub fn null() -> (r: Self)
        ensures
            r@ == 0,
    {
        Self { inner: UniqueID::null() }
    }

    /// Whether all bits are zero.
    pub fn is_null(&self) -> (r: bool)
        ensures
            r == (self@ == 0),
    {
        self.inner.is_null()
    }

    /// The debug rendering, as for [`UniqueID`].
    pub fn to_hex_string(&self) -> (s: String)
        ensures
            s@ == hex_u64(self@),
    {
        self.inner.to_hex_string()
    }
}

impl Default for ConnID {
    fn default() -> (r: Self)
        ensures
            r@ == 0,
    {
        Self::null()
    }
}

impl From<ConnID> for u64 {
    fn from(c: ConnID) -> (r: u64) {
        c.inner.id
    }
}

impl vstd::std_specs::convert::FromSpecImpl<ConnID> for u64 {
    open spec fn obeys_from_spec() -> bool {
        true
    }

    open spec fn from_spec(c: ConnID) -> u64 {
        c.inner.id
    }
}

impl From<u64> for ConnID {
    fn from(id: u64) -> (r: Self) {
        ConnID { inner: UniqueID { id } }
    }
}

impl vstd::std_specs::convert::FromSpecImpl<u64> for ConnID {
    open spec fn obeys_from_spec() -> bool {
        true
    }

    open spec fn from_spec(id: u64) -> ConnID {
        ConnID { inner: UniqueID { id } }
    }
}

} // verus!
