use openapi_client_gen::diagnostics::ErrorKind;
use openapi_client_gen::document::{
    Components, InstanceType, NamedMap, Parameter, ParameterValue, RefOr, RequestBody, Response,
    Schema, TypeHint,
};
use openapi_client_gen::resolve::{resolve, resolve_reference, Resolution, ResolveTarget, Resolved};

fn string_schema() -> Schema {
    Schema {
        format: None,
        instance_type: Some(TypeHint::Single(InstanceType::String)),
        reference: None,
        array: None,
        object: None,
    }
}

fn param(name: &str) -> Parameter {
    Parameter {
        name: name.to_string(),
        location: "query".to_string(),
        required: true,
        value: ParameterValue::Schema(string_schema()),
    }
}

fn registry() -> Components {
    let mut c = Components {
        schemas: NamedMap::new(),
        parameters: NamedMap::new(),
        responses: NamedMap::new(),
        request_bodies: NamedMap::new(),
    };
    c.schemas.insert("Item".to_string(), string_schema());
    for (name, next) in [("S1", "Item"), ("S2", "S1"), ("S3", "S2")] {
        let mut pointer = string_schema();
        pointer.instance_type = None;
        pointer.reference = Some(format!("#/components/schemas/{next}"));
        c.schemas.insert(name.to_string(), pointer);
    }
    c.parameters.insert("limit".to_string(), RefOr::Object(param("limit")));
    c.parameters.insert("a1".to_string(), RefOr::Ref("#/components/parameters/limit".to_string()));
    c.parameters.insert("a2".to_string(), RefOr::Ref("#/components/parameters/a1".to_string()));
    c.parameters.insert("a3".to_string(), RefOr::Ref("#/components/parameters/a2".to_string()));
    c.parameters.insert("loop1".to_string(), RefOr::Ref("#/components/parameters/loop2".to_string()));
    c.parameters.insert("loop2".to_string(), RefOr::Ref("#/components/parameters/loop1".to_string()));
    c.responses.insert("ok".to_string(), RefOr::Object(Response { content: NamedMap::new() }));
    c.request_bodies.insert("body".to_string(), RefOr::Object(RequestBody { content: NamedMap::new() }));
    c
}

fn parameter_name(r: Result<Resolution, openapi_client_gen::diagnostics::GenError>) -> String {
    match r {
        Ok(Resolution::Found(Resolved::Parameter(p))) => p.name.clone(),
        _ => panic!("expected a parameter"),
    }
}

#[test]
fn pointer_to_parameter_resolves() {
    let c = registry();
    assert_eq!(parameter_name(resolve_reference("#/components/parameters/limit", &c)), "limit");
}

#[test]
fn pointer_to_schema_resolves() {
    let c = registry();
    match resolve_reference("#/components/schemas/Item", &c) {
        Ok(Resolution::Found(Resolved::Schema(s))) => {
            assert!(matches!(s.instance_type, Some(TypeHint::Single(InstanceType::String))))
        },
        _ => panic!("expected a schema"),
    }
}

#[test]
fn chain_of_depth_three_matches_direct_pointer() {
    let c = registry();
    let direct = parameter_name(resolve_reference("#/components/parameters/limit", &c));
    for p in ["#/components/parameters/a1", "#/components/parameters/a2", "#/components/parameters/a3"] {
        assert_eq!(parameter_name(resolve_reference(p, &c)), direct);
    }
}

#[test]
fn resolving_twice_gives_the_same_entity() {
    let c = registry();
    let first = resolve_reference("#/components/parameters/a3", &c);
    let second = resolve_reference("#/components/parameters/a3", &c);
    match (first, second) {
        (Ok(Resolution::Found(Resolved::Parameter(a))), Ok(Resolution::Found(Resolved::Parameter(b)))) => {
            assert!(std::ptr::eq(a, b));
        },
        _ => panic!("expected two parameters"),
    }
}

#[test]
fn unknown_name_is_missing() {
    let c = registry();
    assert!(matches!(resolve_reference("#/components/parameters/nope", &c), Ok(Resolution::Missing)));
}

#[test]
fn unknown_category_is_reported_not_fatal() {
    let c = registry();
    match resolve_reference("#/components/widgets/limit", &c) {
        Ok(Resolution::UnknownCategory(cat)) => assert_eq!(cat, "widgets"),
        _ => panic!("expected an unknown category"),
    }
}

#[test]
fn short_pointers_fail() {
    let c = registry();
    match resolve_reference("#/components", &c) {
        Err(e) => assert_eq!(e.kind, ErrorKind::NoComponentName),
        _ => panic!("expected an error"),
    }
    match resolve_reference("#/components/schemas", &c) {
        Err(e) => {
            assert_eq!(e.kind, ErrorKind::NoModelName);
            assert_eq!(e.detail, "#/components/schemas");
        },
        _ => panic!("expected an error"),
    }
}

#[test]
fn cyclic_pointers_fail_cleanly() {
    let c = registry();
    match resolve_reference("#/components/parameters/loop1", &c) {
        Err(e) => assert_eq!(e.kind, ErrorKind::ReferenceCycle),
        _ => panic!("expected a cycle error"),
    }
}

#[test]
fn request_body_categories_resolve() {
    let c = registry();
    assert!(matches!(
        resolve_reference("#/components/requestBodies/body", &c),
        Ok(Resolution::Found(Resolved::RequestBody(_)))
    ));
    assert!(matches!(
        resolve_reference("#/components/requestBody/body", &c),
        Ok(Resolution::Found(Resolved::RequestBody(_)))
    ));
    assert!(matches!(
        resolve_reference("#/components/responses/ok", &c),
        Ok(Resolution::Found(Resolved::Response(_)))
    ));
}

#[test]
fn handles_resolve_by_kind() {
    let c = registry();
    assert!(matches!(resolve(ResolveTarget::RequestBody(None), &c), Ok(Resolution::Missing)));
    let inline = RefOr::Object(param("inline"));
    assert_eq!(parameter_name(resolve(ResolveTarget::Parameter(Some(&inline)), &c)), "inline");
    let pointer = RefOr::Ref("#/components/parameters/a2".to_string());
    assert_eq!(parameter_name(resolve(ResolveTarget::Parameter(Some(&pointer)), &c)), "limit");
}

#[test]
fn named_map_keeps_order_and_replaces_in_place() {
    let mut m: NamedMap<u32> = NamedMap::new();
    m.insert("b".to_string(), 1);
    m.insert("a".to_string(), 2);
    m.insert("b".to_string(), 3);
    assert_eq!(m.len(), 2);
    assert_eq!(m.entry(0), ("b", &3));
    assert_eq!(m.entry(1), ("a", &2));
    assert_eq!(m.get("a"), Some(&2));
    assert_eq!(m.get("c"), None);
}

#[test]
fn schema_pointer_chains_end_at_the_concrete_schema() {
    let c = registry();
    let direct = match resolve_reference("#/components/schemas/Item", &c) {
        Ok(Resolution::Found(Resolved::Schema(s))) => s,
        _ => panic!("expected a schema"),
    };
    for p in ["#/components/schemas/S1", "#/components/schemas/S2", "#/components/schemas/S3"] {
        match resolve_reference(p, &c) {
            Ok(Resolution::Found(Resolved::Schema(s))) => {
                assert!(std::ptr::eq(s, direct));
                assert!(s.reference.is_none());
            },
            _ => panic!("expected a schema"),
        }
    }
}
