use openapi_client_gen::document::{InstanceType, TypeHint};
use openapi_client_gen::types::{map_type, reference_name_to_models_path};

fn map(format: Option<&str>, t: Option<InstanceType>, reference: Option<&str>, as_ref: bool) -> Option<String> {
    map_type(
        &format.map(|s| s.to_string()),
        &t.map(TypeHint::Single),
        &reference.map(|s| s.to_string()),
        as_ref,
    )
}

#[test]
fn formats_map_to_their_types() {
    let cases = [
        ("base64uuid", "base64uuid::Base64Uuid"),
        ("name", "fiberplane_models::names::Name"),
        ("int32", "i32"),
        ("int64", "i64"),
        ("float", "f32"),
        ("double", "f64"),
        ("byte", "Vec<u8>"),
        ("binary", "Vec<u8>"),
        ("date", "fiberplane_models::timestamps::Timestamp"),
        ("date-time", "fiberplane_models::timestamps::Timestamp"),
        ("password", "secrecy::SecretString"),
    ];
    for (format, expected) in cases {
        assert_eq!(map(Some(format), Some(InstanceType::String), None, false).as_deref(), Some(expected));
    }
    assert_eq!(map(Some("name"), None, None, true).as_deref(), Some("&fiberplane_models::names::Name"));
}

#[test]
fn instance_types_map_to_their_types() {
    let cases = [
        (InstanceType::Null, "()"),
        (InstanceType::Boolean, "bool"),
        (InstanceType::Object, "std::collections::HashMap<String, String>"),
        (InstanceType::Array, "Vec<serde_json::Value>"),
        (InstanceType::Number, "i64"),
        (InstanceType::String, "String"),
        (InstanceType::Integer, "i32"),
    ];
    for (t, expected) in cases {
        assert_eq!(map(None, Some(t), None, false).as_deref(), Some(expected));
    }
    assert_eq!(map(None, Some(InstanceType::String), None, true).as_deref(), Some("&str"));
}

#[test]
fn unknown_format_falls_through_to_instance_type() {
    assert_eq!(map(Some("uuid"), Some(InstanceType::Integer), None, false).as_deref(), Some("i32"));
}

#[test]
fn array_with_reference_is_a_list_of_records() {
    assert_eq!(
        map(None, Some(InstanceType::Array), Some("#/components/schemas/Item"), false).as_deref(),
        Some("Vec<models::Item>")
    );
}

#[test]
fn reference_alone_names_a_record() {
    assert_eq!(map(None, None, Some("#/components/schemas/Item"), false).as_deref(), Some("models::Item"));
}

#[test]
fn nothing_to_map_fails() {
    assert_eq!(map(None, None, None, false), None);
    let several = Some(TypeHint::Multiple(vec![InstanceType::String, InstanceType::Null]));
    assert_eq!(map_type(&None, &several, &None, false), None);
}

#[test]
fn models_path_takes_the_last_piece_in_pascal_case() {
    assert_eq!(reference_name_to_models_path("#/components/schemas/user_profile"), "models::UserProfile");
    assert_eq!(reference_name_to_models_path("notebook"), "models::Notebook");
}
