use openapi_client_gen::diagnostics::{ErrorKind, WarningKind};
use openapi_client_gen::document::{
    Components, InstanceType, NamedMap, ObjectShape, Schema, SchemaNode, TypeHint,
};
use openapi_client_gen::models::{generate_model, generate_models, generate_normal_field};

fn schema(format: Option<&str>, t: Option<InstanceType>) -> Schema {
    Schema {
        format: format.map(|s| s.to_string()),
        instance_type: t.map(TypeHint::Single),
        reference: None,
        array: None,
        object: None,
    }
}

fn item_schema() -> Schema {
    let mut properties = NamedMap::new();
    properties.insert(
        "id".to_string(),
        SchemaNode::Object(schema(Some("base64uuid"), Some(InstanceType::String))),
    );
    properties.insert("name".to_string(), SchemaNode::Object(schema(None, Some(InstanceType::String))));
    let mut s = schema(None, Some(InstanceType::Object));
    s.object = Some(ObjectShape { properties, required: vec!["id".to_string()] });
    s
}

#[test]
fn item_record_has_required_id_and_optional_name() {
    let mut warnings = Vec::new();
    let text = generate_model("Item", &item_schema(), &mut warnings).ok().unwrap();
    assert_eq!(
        text,
        "use serde::{Deserialize, Serialize};\nuse crate::models;\n\n\
         #[derive(Clone, Debug, Serialize, Deserialize)]\npub struct Item {\n\
         \x20   #[serde(rename = \"id\")]\n    pub id: base64uuid::Base64Uuid,\n\
         \x20   #[serde(rename = \"name\")]\n    pub name: Option<String>,\n}\n\n"
    );
    assert!(warnings.is_empty());
}

#[test]
fn optional_fields_are_wrapped_and_required_ones_are_not() {
    let s = schema(Some("int64"), None);
    let required = vec!["count".to_string()];
    let bare = generate_normal_field("count", &s, &required).ok().unwrap();
    assert!(bare.contains("pub count: i64,"));
    let wrapped = generate_normal_field("total", &s, &required).ok().unwrap();
    assert!(wrapped.contains("pub total: Option<i64>,"));
}

#[test]
fn wire_name_is_kept_and_identifier_is_converted() {
    let s = schema(None, Some(InstanceType::Boolean));
    let field = generate_normal_field("isActive", &s, &vec!["isActive".to_string()]).ok().unwrap();
    assert_eq!(field, "    #[serde(rename = \"isActive\")]\n    pub is_active: bool,\n");
}

#[test]
fn keyword_fields_get_a_suffix() {
    let s = schema(None, Some(InstanceType::String));
    let field = generate_normal_field("type", &s, &vec!["type".to_string()]).ok().unwrap();
    assert!(field.contains("pub type_: String,"));
    assert!(field.contains("rename = \"type\""));
}

#[test]
fn unmappable_field_names_the_field() {
    let s = schema(None, None);
    match generate_normal_field("blob", &s, &vec![]) {
        Err(e) => {
            assert_eq!(e.kind, ErrorKind::UnmappableType);
            assert_eq!(e.detail, "blob");
        },
        Ok(_) => panic!("expected an error"),
    }
}

#[test]
fn schema_without_object_shape_warns_and_yields_empty_record() {
    let mut warnings = Vec::new();
    let text = generate_model("Status", &schema(None, Some(InstanceType::String)), &mut warnings).ok().unwrap();
    assert!(text.ends_with("pub struct Status {\n}\n\n"));
    assert_eq!(warnings.len(), 1);
    assert_eq!(warnings[0].kind, WarningKind::NoObjectShape);
    assert_eq!(warnings[0].detail, "Status");
}

#[test]
fn boolean_property_schema_is_an_error() {
    let mut properties = NamedMap::new();
    properties.insert("flag".to_string(), SchemaNode::Bool(true));
    let mut s = schema(None, Some(InstanceType::Object));
    s.object = Some(ObjectShape { properties, required: vec![] });
    match generate_model("Thing", &s, &mut Vec::new()) {
        Err(e) => assert_eq!(e.kind, ErrorKind::UnsupportedBoolProperty),
        Ok(_) => panic!("expected an error"),
    }
}

#[test]
fn models_follow_registry_order() {
    let mut c = Components {
        schemas: NamedMap::new(),
        parameters: NamedMap::new(),
        responses: NamedMap::new(),
        request_bodies: NamedMap::new(),
    };
    c.schemas.insert("UserProfile".to_string(), item_schema());
    c.schemas.insert("Item".to_string(), item_schema());
    let mut warnings = Vec::new();
    let g = generate_models(&c, &mut warnings).ok().unwrap();
    assert_eq!(g.files.len(), 2);
    assert_eq!(g.files[0].file_stem, "user_profile");
    assert!(g.files[0].content.contains("pub struct UserProfile {"));
    assert_eq!(g.files[1].file_stem, "item");
    assert_eq!(
        g.mod_rs,
        "pub mod user_profile;\npub use user_profile::*;\n\npub mod item;\npub use item::*;\n\n"
    );
    let again = generate_models(&c, &mut warnings).ok().unwrap();
    assert_eq!(again.mod_rs, g.mod_rs);
    assert_eq!(again.files[0].content, g.files[0].content);
}

#[test]
fn edition_2021_keywords_only() {
    let s = schema(None, Some(InstanceType::String));
    let field = generate_normal_field("async", &s, &vec!["async".to_string()]).ok().unwrap();
    assert!(field.contains("pub async_: String,"));
    let field = generate_normal_field("gen", &s, &vec!["gen".to_string()]).ok().unwrap();
    assert!(field.contains("pub gen: String,"));
}
