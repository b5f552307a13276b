use bevy_reflect_registry::{try_get_registration, CustomError, MessageError, Type, TypeRegistration, TypeRegistry};

fn ty(id: u64, path: &str) -> Type {
    Type::new(id, path.to_string())
}

fn registry_with(types: &[(u64, &str)]) -> TypeRegistry {
    let mut registry = TypeRegistry::new();
    for &(id, path) in types {
        assert!(registry.add_registration(TypeRegistration::new(ty(id, path))));
    }
    registry
}

fn miss_message(result: Result<&TypeRegistration, MessageError>) -> String {
    match result {
        Ok(_) => panic!("expected a missing registration"),
        Err(e) => e.message().to_string(),
    }
}

#[test]
fn present_type_resolves_to_its_registration() {
    let registry = registry_with(&[(1, "my_crate::T1")]);
    let expected = registry.get(1).unwrap();
    let found = try_get_registration::<MessageError>(ty(1, "my_crate::T1"), &registry).unwrap();
    assert!(std::ptr::eq(found, expected));
    assert_eq!(found.type_id(), 1);
    assert_eq!(found.ty().path(), "my_crate::T1");
}

#[test]
fn each_registered_type_resolves_to_its_own_registration() {
    let registry = registry_with(&[(1, "a::A"), (2, "b::B"), (3, "c::C")]);
    for (id, path) in [(1, "a::A"), (2, "b::B"), (3, "c::C")] {
        let found = try_get_registration::<MessageError>(ty(id, path), &registry).unwrap();
        assert!(std::ptr::eq(found, registry.get(id).unwrap()));
        assert_eq!(found.ty().path(), path);
    }
}

#[test]
fn missing_type_reports_its_path() {
    let registry = registry_with(&[(1, "T1")]);
    let msg = miss_message(try_get_registration::<MessageError>(ty(2, "T2"), &registry));
    assert_eq!(msg, "no registration found for type `T2`");
    assert!(!msg.contains("T1"));
}

#[test]
fn empty_registry_reports_missing_type() {
    let registry = TypeRegistry::new();
    assert_eq!(registry.len(), 0);
    let msg = miss_message(try_get_registration::<MessageError>(ty(7, "alloc::string::String"), &registry));
    assert_eq!(msg, "no registration found for type `alloc::string::String`");
}

#[test]
fn resolving_twice_gives_same_outcome() {
    let registry = registry_with(&[(1, "T1")]);
    let a = try_get_registration::<MessageError>(ty(1, "T1"), &registry).unwrap();
    let b = try_get_registration::<MessageError>(ty(1, "T1"), &registry).unwrap();
    assert!(std::ptr::eq(a, b));
    let m1 = miss_message(try_get_registration::<MessageError>(ty(9, "T9"), &registry));
    let m2 = miss_message(try_get_registration::<MessageError>(ty(9, "T9"), &registry));
    assert_eq!(m1, m2);
}

#[test]
fn degenerate_types_do_not_panic() {
    let registry = registry_with(&[(0, "")]);
    let found = try_get_registration::<MessageError>(ty(0, ""), &registry).unwrap();
    assert_eq!(found.type_id(), 0);
    let msg = miss_message(try_get_registration::<MessageError>(ty(u64::MAX, ""), &registry));
    assert_eq!(msg, "no registration found for type ``");
}

#[test]
fn two_error_backends_agree_on_the_message() {
    let registry = registry_with(&[(1, "T1")]);
    let plain = miss_message(try_get_registration::<MessageError>(ty(2, "T2"), &registry));
    let serde_err = match try_get_registration::<serde::de::value::Error>(ty(2, "T2"), &registry) {
        Ok(_) => panic!("expected a missing registration"),
        Err(e) => e.to_string(),
    };
    assert_eq!(serde_err, "no registration found for type `T2`");
    assert_eq!(plain, serde_err);
}

#[test]
fn serde_backend_resolves_present_type() {
    let registry = registry_with(&[(5, "T5")]);
    let found = try_get_registration::<serde::de::value::Error>(ty(5, "T5"), &registry).unwrap();
    assert_eq!(found.type_id(), 5);
}

#[test]
fn custom_builds_message_error() {
    let e = MessageError::custom("some diagnostic".to_string());
    assert_eq!(e.message(), "some diagnostic");
}
