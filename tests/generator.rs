use openapi_client_gen::document::{
    Components, Document, InstanceType, MediaType, NamedMap, Operation, PathItem, RefOr, Response,
    Schema, Server, TypeHint,
};
use openapi_client_gen::generator::generate_sources;

fn document(with_components: bool) -> Document {
    let mut content = NamedMap::new();
    content.insert(
        "application/json".to_string(),
        MediaType {
            schema: Some(Schema {
                format: None,
                instance_type: Some(TypeHint::Single(InstanceType::Boolean)),
                reference: None,
                array: None,
                object: None,
            }),
        },
    );
    let mut responses = NamedMap::new();
    responses.insert("200".to_string(), RefOr::Object(Response { content }));
    let op = Operation {
        description: None,
        operation_id: Some("healthy".to_string()),
        parameters: vec![],
        request_body: None,
        responses,
    };
    let mut paths = NamedMap::new();
    paths.insert(
        "/health".to_string(),
        PathItem { get: Some(op), put: None, post: None, delete: None, patch: None, parameters: vec![] },
    );
    Document {
        servers: vec![Server {
            url: "https://api.example.com".to_string(),
            description: Some("Example servers".to_string()),
            variables: NamedMap::new(),
        }],
        paths,
        components: if with_components {
            Some(Components {
                schemas: NamedMap::new(),
                parameters: NamedMap::new(),
                responses: NamedMap::new(),
                request_bodies: NamedMap::new(),
            })
        } else {
            None
        },
    }
}

#[test]
fn whole_pass_produces_every_file() {
    let mut warnings = Vec::new();
    let g = generate_sources(&document(true), &vec![], &mut warnings).ok().unwrap();
    assert!(g.clients.clients.contains("pub fn example_client() -> Result<ApiClient> {"));
    assert!(g.models.unwrap().files.is_empty());
    let lib = g.lib_rs.unwrap();
    assert!(lib.contains("pub async fn healthy(\n    client: &ApiClient,\n) -> Result<bool> {\n"));
    assert!(warnings.is_empty());
}

#[test]
fn without_components_only_transport_files() {
    let g = generate_sources(&document(false), &vec![], &mut Vec::new()).ok().unwrap();
    assert!(g.models.is_none());
    assert!(g.lib_rs.is_none());
    assert!(g.clients.builder.starts_with("use crate::clients::ApiClient;\n"));
}

#[test]
fn generation_is_deterministic() {
    let a = generate_sources(&document(true), &vec![], &mut Vec::new()).ok().unwrap();
    let b = generate_sources(&document(true), &vec![], &mut Vec::new()).ok().unwrap();
    assert_eq!(a.lib_rs, b.lib_rs);
    assert_eq!(a.clients.clients, b.clients.clients);
    assert_eq!(a.clients.builder, b.clients.builder);
}
