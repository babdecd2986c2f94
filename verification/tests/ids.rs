use thespis_remote::wire_format::{ConnID, ServiceID, ServiceRegistry, UniqueID};

#[test]
fn identical() {
    let sid = UniqueID::from_seed(b"namespace::Typename");
    let sid2 = UniqueID::from_seed(b"namespace::Typename");
    assert_eq!(sid, sid2);
}

#[test]
fn unique_id_full() {
    let sid = UniqueID::full();
    assert!(sid.is_full());
}

#[test]
fn null() {
    let sid = UniqueID::null();
    assert!(sid.is_null());
}

#[test]
fn debug() {
    let sid = UniqueID { id: 0x0f0e0d0c0b0a0908 };
    assert_eq!("0x0f0e0d0c0b0a0908", &sid.to_hex_string());
}

#[test]
fn service_id_from_seed_is_namespace_then_typename() {
    let a = ServiceID::from_seed(b"namespace::", b"Typename");
    let b = ServiceID::from_seed(b"namespace::Type", b"name");
    assert_eq!(a, b);
    assert_eq!(u64::from(a), UniqueID::from_seed(b"namespace::Typename").id);
    assert_ne!(a, ServiceID::from_seed(b"namespace::", b"Other"));
}

#[test]
fn service_id_reserved_values() {
    assert!(ServiceID::null().is_null());
    assert!(!ServiceID::null().is_full());
    assert!(ServiceID::full().is_full());
    assert!(ConnID::null().is_null());
    assert!(!ConnID::from_u64(3).is_null());
    assert_eq!(u64::from(ConnID::default()), 0);
}

#[test]
fn registry_keeps_first_name() {
    let mut reg = ServiceRegistry::new();
    let sid = ServiceID::from_u64(0x10);
    assert_eq!(ServiceID::service_name(&reg, &sid), None);
    ServiceID::register_service(&mut reg, &sid, "First");
    ServiceID::register_service(&mut reg, &sid, "Second");
    assert_eq!(ServiceID::service_name(&reg, &sid), Some("First"));
    assert_eq!(sid.to_display_string(&reg), "First");
    assert_eq!(sid.to_debug_string(&reg), "ServiceID: First (0x0000000000000010)");
    let other = ServiceID::from_u64(0xabc);
    assert_eq!(other.to_display_string(&reg), "0x0000000000000abc");
}

#[test]
fn from_seed_is_xxhash64() {
    // xxHash64 of no bytes, with seed 0.
    assert_eq!(UniqueID::from_seed(b"").id, 0xef46db3751d8e999);
    assert_eq!(UniqueID::from_seed(b"").to_hex_string(), "0xef46db3751d8e999");
}

#[test]
fn conn_id_from_u64() {
    assert_eq!(ConnID::from(5u64), ConnID::from_u64(5));
    assert_eq!(u64::from(ConnID::from(5u64)), 5);
    assert_eq!(ConnID::from_u64(0x1f).to_hex_string(), "0x000000000000001f");
}
