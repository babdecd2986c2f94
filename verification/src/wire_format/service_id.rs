//! Service ids identify the service (message type) a wire message is meant for.

use vstd::prelude::*;
use std::collections::HashMap;
use super::unique_id::{UniqueID, hex_u64, xxhash64};
use crate::buf::append_bytes;
use crate::text::push_str;

verus! {

broadcast use vstd::std_specs::hash::group_hash_axioms;

/// A unique identifier for a service exposed to other processes. It identifies the type the
/// payload deserializes to and the actor the message is delivered to. It is the xxHash64 of
/// the namespace followed by the type name.
///
/// Two values are reserved: all zero bits (null) and all one bits (full) are used by the peer
/// to detect error conditions.
#[derive(Clone, Copy, PartialEq, Eq, Structural, Hash, Debug)]
pub struct ServiceID {
    pub inner: UniqueID,
}

impl View for ServiceID {
    type V = u64;

    open spec fn view(&self) -> u64 {
        self.inner@
    }
}

/// The names under which services were registered, for log output. The first name given for a
/// service id is the one kept.
#[derive(Debug)]
pub struct ServiceRegistry {
    names: HashMap<u64, String>,
}

impl ServiceRegistry {
    /// The names, by service id.
    pub closed spec fn names(&self) -> Map<u64, Seq<char>> {
        Map::new(|k: u64| self.names@.contains_key(k), |k: u64| self.names@[k]@)
    }

    /// A registry without names.
    pub fn new() -> (r: Self)
        ensures
            r.names() == Map::<u64, Seq<char>>::empty(),
    {
        let r = Self { names: HashMap::new() };
        assert(r.names() =~= Map::<u64, Seq<char>>::empty());
        r
    }
}

impl ServiceID {
    /// The id with the given value.
    pub fn from_u64(id: u64) -> (r: Self)
        ensures
            r@ == id,
    {
        ServiceID { inner: UniqueID { id } }
    }

    /// The service id seeded by a namespace and a type name: the xxHash64 of the namespace
    /// bytes followed by the type name bytes. Identical input always gives an identical id.
    pub fn from_seed(namespace: &[u8], typename: &[u8]) -> (r: Self)
        ensures
            r@ == xxhash64(namespace@ + typename@),
    {
        let mut data: Vec<u8> = Vec::new();
        append_bytes(&mut data, namespace);
        append_bytes(&mut data, typename);
        assert(data@ =~= namespace@ + typename@);
        Self { inner: UniqueID::from_seed(data.as_slice()) }
    }

    /// The empty service id (all zero bits); it marks a message as a connection error.
    pub fn null() -> (r: Self)
        ensures
            r@ == 0,
    {
        Self { inner: UniqueID::null() }
    }

    /// Whether all bits are zero.
    pub fn is_null(&self) -> (r: bool)
        ensures
            r == (self@ == 0),
    {
        self.inner.is_null()
    }

    /// The full service id (all one bits); it marks a message as the response to a call.
    pub fn full() -> (r: Self)
        ensures
            r@ == u64::MAX,
    {
        Self { inner: UniqueID::full() }
    }

    /// Whether all bits are one.
    pub fn is_full(&self) -> (r: bool)
        ensures
            r == (self@ == u64::MAX),
    {
        self.inner.is_full()
    }

    /// Registers the type name a service id refers to, for later log output. A name that was
    /// registered earlier for the same id is kept.
    pub fn register_service(registry: &mut ServiceRegistry, sid: &ServiceID, name: &str)
        ensures
            final(registry).names() == if old(registry).names().contains_key(sid@) {
                old(registry).names()
            } else {
                old(registry).names().insert(sid@, name@)
            },
    {
        if !registry.names.contains_key(&sid.inner.id) {
            let mut owned = String::new();
            push_str(&mut owned, name);
            registry.names.insert(sid.inner.id, owned);
            assert(registry.names() =~= old(registry).names().insert(sid@, name@));
        } else {
            assert(registry.names() =~= old(registry).names());
        }
    }

    /// The type name registered for a service id, if any.
    pub fn service_name<'a>(registry: &'a ServiceRegistry, sid: &ServiceID) -> (r: Option<&'a str>)
        ensures
            match r {
                Some(n) => registry.names().contains_key(sid@) && n@ == registry.names()[sid@],
                None => !registry.names().contains_key(sid@),
            },
    {
        match registry.names.get(&sid.inner.id) {
            Some(n) => Some(n.as_str()),
            None => None,
        }
    }

    /// The debug rendering: `ServiceID: <name> (<hex>)` when a name is registered, the bare
    /// hexadecimal id otherwise.
    pub fn to_debug_string(&self, registry: &ServiceRegistry) -> (s: String)
        ensures
            s@ == if registry.names().contains_key(self@) {
                "ServiceID: "@ + registry.names()[self@] + " ("@ + hex_u64(self@) + ")"@
            } else {
                hex_u64(self@)
            },
    {
        match Self::service_name(registry, self) {
            Some(name) => {
                let mut s = String::new();
                push_str(&mut s, "ServiceID: ");
                push_str(&mut s, name);
                push_str(&mut s, " (");
                let hex = self.inner.to_hex_string();
                push_str(&mut s, hex.as_str());
                push_str(&mut s, ")");
                assert(s@ =~= "ServiceID: "@ + registry.names()[self@] + " ("@ + hex_u64(self@)
                    + ")"@);
                s
            },
            None => self.inner.to_hex_string(),
        }
    }

    /// The display rendering: the registered name, or the hexadecimal id when there is none.
    pub fn to_display_string(&self, registry: &ServiceRegistry) -> (s: String)
        ensures
            s@ == if registry.names().contains_key(self@) {
                registry.names()[self@]
            } else {
                hex_u64(self@)
            },
    {
        match Self::service_name(registry, self) {
            Some(name) => {
                let mut s = String::new();
                push_str(&mut s, name);
                assert(s@ =~= registry.names()[self@]);
                s
            },
            None => self.inner.to_hex_string(),
        }
    }
}

impl From<ServiceID> for u64 {
    fn from(s: ServiceID) -> (r: u64) {
        s.inner.id
    }
}

impl vstd::std_specs::convert::FromSpecImpl<ServiceID> for u64 {
    open spec fn obeys_from_spec() -> bool {
        true
    }

    open spec fn from_spec(s: ServiceID) -> u64 {
        s.inner.id
    }
}

} // verus!
