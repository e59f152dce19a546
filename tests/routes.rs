use openapi_client_gen::diagnostics::{ErrorKind, Warning, WarningKind};
use openapi_client_gen::document::{
    ArrayShape, Components, InstanceType, Items, MediaType, NamedMap, Operation, Parameter,
    ParameterValue, PathItem, RefOr, RequestBody, Response, Schema, SchemaNode, TypeHint,
};
use openapi_client_gen::routes::{
    generate_attach, generate_function_body, generate_route, generate_routes, path_expression, ResponseType,
};

fn schema(format: Option<&str>, t: Option<InstanceType>, reference: Option<&str>) -> Schema {
    Schema {
        format: format.map(|s| s.to_string()),
        instance_type: t.map(TypeHint::Single),
        reference: reference.map(|s| s.to_string()),
        array: None,
        object: None,
    }
}

fn components() -> Components {
    Components {
        schemas: NamedMap::new(),
        parameters: NamedMap::new(),
        responses: NamedMap::new(),
        request_bodies: NamedMap::new(),
    }
}

fn parameter(name: &str, location: &str, required: bool, s: Schema) -> RefOr<Parameter> {
    RefOr::Object(Parameter {
        name: name.to_string(),
        location: location.to_string(),
        required,
        value: ParameterValue::Schema(s),
    })
}

fn content(entries: Vec<(&str, Option<Schema>)>) -> NamedMap<MediaType> {
    let mut m = NamedMap::new();
    for (ct, s) in entries {
        m.insert(ct.to_string(), MediaType { schema: s });
    }
    m
}

fn ok_response(entries: Vec<(&str, Option<Schema>)>) -> NamedMap<RefOr<Response>> {
    let mut r = NamedMap::new();
    r.insert("200".to_string(), RefOr::Object(Response { content: content(entries) }));
    r
}

fn operation(id: Option<&str>) -> Operation {
    Operation {
        description: None,
        operation_id: id.map(|s| s.to_string()),
        parameters: vec![],
        request_body: None,
        responses: NamedMap::new(),
    }
}

fn get_item() -> Operation {
    let mut op = operation(Some("getItem"));
    op.parameters = vec![parameter("id", "path", true, schema(None, Some(InstanceType::String), None))];
    op.responses = ok_response(vec![(
        "application/json",
        Some(schema(None, None, Some("#/components/schemas/Item"))),
    )]);
    op
}

#[test]
fn get_item_route() {
    let mut warnings: Vec<Warning> = Vec::new();
    let text = generate_route("/items/{id}", "GET", &get_item(), &vec![], &components(), &mut warnings)
        .ok()
        .unwrap();
    assert_eq!(
        text,
        "pub async fn getItem(\n    client: &ApiClient,\n    id: &str,\n) -> Result<models::Item> {\n\
         \x20   let mut builder = client.request(\n        Method::GET,\n\
         \x20       &format!(\"/items/{id}\", id = id, )\n    )?;\n\
         \x20   let response = builder.send()\n        .await?\n        .error_for_status()?\n\
         \x20       .json()\n        .await?;\n\n    Ok(response)\n}\n\n"
    );
    assert!(warnings.is_empty());
}

#[test]
fn missing_operation_id_names_method_and_path() {
    let mut warnings = Vec::new();
    match generate_route("/items", "POST", &operation(None), &vec![], &components(), &mut warnings) {
        Err(e) => {
            assert_eq!(e.kind, ErrorKind::MissingOperationId);
            assert_eq!(e.detail, "POST /items");
        },
        Ok(_) => panic!("expected an error"),
    }
}

#[test]
fn whole_run_aborts_on_missing_operation_id() {
    let mut paths = NamedMap::new();
    let mut item = PathItem { get: Some(get_item()), put: None, post: None, delete: None, patch: None, parameters: vec![] };
    item.delete = Some(operation(None));
    paths.insert("/items/{id}".to_string(), item);
    match generate_routes(&paths, &components(), &vec![], &mut Vec::new()) {
        Err(e) => {
            assert_eq!(e.kind, ErrorKind::MissingOperationId);
            assert_eq!(e.detail, "DELETE /items/{id}");
        },
        Ok(_) => panic!("expected an error"),
    }
}

#[test]
fn array_of_boolean_body_is_unsupported() {
    let mut op = operation(Some("upload"));
    let mut body_schema = schema(None, Some(InstanceType::Array), None);
    body_schema.array = Some(ArrayShape { items: Some(Items::Single(Box::new(SchemaNode::Bool(true)))) });
    op.request_body = Some(RefOr::Object(RequestBody { content: content(vec![("application/json", Some(body_schema))]) }));
    match generate_route("/upload", "POST", &op, &vec![], &components(), &mut Vec::new()) {
        Err(e) => assert_eq!(e.kind, ErrorKind::UnsupportedBoolItems),
        Ok(_) => panic!("expected an error"),
    }
}

#[test]
fn unknown_response_mime_falls_back_to_bytes() {
    let mut op = operation(Some("export"));
    op.responses = ok_response(vec![("application/xml", Some(schema(None, Some(InstanceType::String), None)))]);
    let mut warnings = Vec::new();
    let text = generate_route("/export", "GET", &op, &vec![], &components(), &mut warnings).ok().unwrap();
    assert!(text.contains(") -> Result<bytes::Bytes> {"));
    assert!(text.ends_with("        .bytes()\n        .await?;\n\n    Ok(response)\n}\n\n"));
    assert_eq!(warnings.len(), 1);
    assert_eq!(warnings[0].kind, WarningKind::UnknownResponseMime);
    assert_eq!(warnings[0].detail, "application/xml");
}

#[test]
fn octet_stream_response_falls_back_silently() {
    let mut op = operation(Some("download"));
    op.responses = ok_response(vec![("application/octet-stream", None)]);
    let mut warnings = Vec::new();
    let text = generate_route("/download", "GET", &op, &vec![], &components(), &mut warnings).ok().unwrap();
    assert!(text.contains(") -> Result<bytes::Bytes> {"));
    assert!(warnings.is_empty());
}

#[test]
fn text_and_empty_responses() {
    let mut op = operation(Some("ping"));
    op.responses = ok_response(vec![("text/plain", None)]);
    let text = generate_route("/ping", "GET", &op, &vec![], &components(), &mut Vec::new()).ok().unwrap();
    assert!(text.contains(") -> Result<String> {"));
    assert!(text.contains("        .text()\n"));
    let mut op = operation(Some("touch"));
    op.responses = ok_response(vec![]);
    let text = generate_route("/touch", "PUT", &op, &vec![], &components(), &mut Vec::new()).ok().unwrap();
    assert!(text.contains(") -> Result<()> {"));
    assert!(text.ends_with(".error_for_status()?;\n\n    Ok(())\n}\n\n"));
    let text = generate_route("/touch", "PUT", &operation(Some("touch")), &vec![], &components(), &mut Vec::new()).ok().unwrap();
    assert!(text.contains(") -> Result<()> {"));
}

#[test]
fn query_parameters_and_json_body() {
    let mut op = operation(Some("search"));
    op.description = Some("Searches.".to_string());
    op.parameters = vec![
        parameter("pageSize", "query", false, schema(Some("int32"), None, None)),
        parameter("since", "query", true, schema(Some("date-time"), None, None)),
        parameter("X-Trace", "header", false, schema(None, Some(InstanceType::String), None)),
    ];
    op.request_body = Some(RefOr::Object(RequestBody {
        content: content(vec![
            ("text/csv", None),
            ("application/json", Some(schema(None, None, Some("#/components/schemas/Query")))),
        ]),
    }));
    op.responses = ok_response(vec![(
        "application/json",
        Some(Schema {
            array: Some(ArrayShape {
                items: Some(Items::Single(Box::new(SchemaNode::Object(schema(None, None, Some("#/components/schemas/Hit")))))),
            }),
            ..schema(None, Some(InstanceType::Array), None)
        }),
    )]);
    let mut warnings = Vec::new();
    let text = generate_route("/search", "POST", &op, &vec![], &components(), &mut warnings).ok().unwrap();
    assert!(text.starts_with("#[doc = r#\"Searches.\"#]\npub async fn search(\n"));
    assert!(text.contains("    page_size: Option<i32>,\n"));
    assert!(text.contains("    since: fiberplane_models::timestamps::Timestamp,\n"));
    assert!(text.contains("    x_trace: Option<&str>,\n"));
    assert!(text.contains("    payload: models::Query\n) -> Result<Vec<models::Hit>> {\n"));
    assert!(text.contains("        \"/search\"\n    )?;\n"));
    assert!(text.contains(
        "    if let Some(page_size) = page_size {\n        builder = builder.query(&[(\"pageSize\", page_size)]);\n    }\n"
    ));
    assert!(text.contains("        builder = builder.query(&[(\"since\", since.to_string())]);\n"));
    assert!(text.contains("    builder = builder.json(&payload);\n"));
    let kinds: Vec<WarningKind> = warnings.iter().map(|w| w.kind).collect();
    assert_eq!(kinds, vec![WarningKind::IgnoredMediaType, WarningKind::UnknownParameterLocation]);
    assert_eq!(warnings[0].detail, "text/csv");
    assert_eq!(warnings[1].detail, "header");
}

#[test]
fn routes_header_and_determinism() {
    let mut paths = NamedMap::new();
    paths.insert(
        "/items/{id}".to_string(),
        PathItem { get: Some(get_item()), put: None, post: None, delete: None, patch: None, parameters: vec![] },
    );
    let models = vec!["fiberplane_models::Item".to_string()];
    let first = generate_routes(&paths, &components(), &models, &mut Vec::new()).ok().unwrap();
    let second = generate_routes(&paths, &components(), &models, &mut Vec::new()).ok().unwrap();
    assert_eq!(first, second);
    assert!(first.starts_with("#![forbid(unsafe_code)]\n"));
    assert!(first.contains("pub(crate) mod models {\n    pub(crate) use fiberplane_models::Item;\n}\n\n"));
    assert!(first.ends_with("    Ok(response)\n}\n\n\n"));
}

#[test]
fn path_expression_fills_placeholders() {
    let names = vec!["notebookId".to_string(), "cellId".to_string()];
    assert_eq!(
        path_expression("/notebooks/{notebookId}/cells/{cellId}", &names),
        "        &format!(\"/notebooks/{notebookId}/cells/{cellId}\", notebookId = notebook_id, cellId = cell_id, )"
    );
    assert_eq!(path_expression("/ping", &vec![]), "        \"/ping\"");
}

#[test]
fn function_body_of_get_item() {
    let body = generate_function_body(
        "/items/{id}",
        "GET",
        &get_item(),
        &components(),
        Some(ResponseType::Json),
        &mut Vec::new(),
    )
    .ok()
    .unwrap();
    assert_eq!(
        body,
        "    let mut builder = client.request(\n        Method::GET,\n        &format!(\"/items/{id}\", id = id, )\n    )?;\n    let response = builder.send()\n        .await?\n        .error_for_status()?\n        .json()\n        .await?;\n\n    Ok(response)"
    );
}

#[test]
fn response_parts() {
    assert_eq!(ResponseType::Json.generate_response_part(), "\n        .json()\n        .await?;\n\n    Ok(response)");
    assert_eq!(ResponseType::Text.generate_response_part(), "\n        .text()\n        .await?;\n\n    Ok(response)");
    assert_eq!(ResponseType::Unit.generate_response_part(), ";\n\n    Ok(())");
    assert_eq!(ResponseType::fallback_response_part(), "\n        .bytes()\n        .await?;\n\n    Ok(response)");
}

fn body_route(body: RequestBody) -> Result<String, openapi_client_gen::diagnostics::GenError> {
    let mut op = operation(Some("send"));
    op.request_body = Some(RefOr::Object(body));
    generate_route("/send", "POST", &op, &vec![], &components(), &mut Vec::new())
}

fn error_kind(r: Result<String, openapi_client_gen::diagnostics::GenError>) -> ErrorKind {
    match r {
        Err(e) => e.kind,
        Ok(t) => panic!("expected an error, got {t}"),
    }
}

#[test]
fn body_errors() {
    assert_eq!(
        error_kind(body_route(RequestBody { content: content(vec![("text/csv", None)]) })),
        ErrorKind::NoSupportedMediaType
    );
    assert_eq!(
        error_kind(body_route(RequestBody { content: content(vec![("application/json", None)]) })),
        ErrorKind::MissingSchema
    );
    let mut no_items = schema(None, Some(InstanceType::Array), None);
    no_items.array = Some(ArrayShape { items: None });
    assert_eq!(
        error_kind(body_route(RequestBody { content: content(vec![("application/json", Some(no_items))]) })),
        ErrorKind::ArrayWithoutItems
    );
    let mut tuple = schema(None, Some(InstanceType::Array), None);
    tuple.array = Some(ArrayShape { items: Some(Items::Multiple(vec![SchemaNode::Bool(true)])) });
    assert_eq!(
        error_kind(body_route(RequestBody { content: content(vec![("application/json", Some(tuple))]) })),
        ErrorKind::UnsupportedItemList
    );
}

#[test]
fn octet_stream_body_and_inline_payload() {
    let body = RequestBody {
        content: content(vec![("application/octet-stream", Some(schema(Some("binary"), Some(InstanceType::String), None)))]),
    };
    let text = body_route(body).ok().unwrap();
    assert!(text.contains("    payload: Vec<u8>,\n) -> Result<()> {"));
    assert!(text.contains("    builder = builder.body(payload);\n"));
}

#[test]
fn pointer_to_wrong_category_is_fatal() {
    let mut c = components();
    c.schemas.insert("Item".to_string(), schema(None, Some(InstanceType::String), None));
    let mut op = operation(Some("get"));
    op.parameters = vec![RefOr::Ref("#/components/schemas/Item".to_string())];
    match generate_route("/x", "GET", &op, &vec![], &c, &mut Vec::new()) {
        Err(e) => {
            assert_eq!(e.kind, ErrorKind::UnexpectedEntity);
            assert_eq!(e.detail, "Parameter");
        },
        Ok(_) => panic!("expected an error"),
    }
}

#[test]
fn unknown_category_parameter_is_skipped_with_a_warning() {
    let mut op = operation(Some("get"));
    op.parameters = vec![RefOr::Ref("#/components/headers/Trace".to_string())];
    let mut warnings = Vec::new();
    let text = generate_route("/x", "GET", &op, &vec![], &components(), &mut warnings).ok().unwrap();
    assert!(text.starts_with("pub async fn get(\n    client: &ApiClient,\n) -> Result<()> {\n"));
    assert_eq!(warnings.len(), 2);
    assert!(warnings.iter().all(|w| w.kind == WarningKind::UnsupportedComponent && w.detail == "headers"));
}

#[test]
fn shared_parameters_come_first() {
    let shared = vec![parameter("orgId", "path", true, schema(None, Some(InstanceType::String), None))];
    let mut op = operation(Some("list"));
    op.parameters = vec![parameter("limit", "query", false, schema(None, Some(InstanceType::Integer), None))];
    let text = generate_route("/orgs/{orgId}/items", "GET", &op, &shared, &components(), &mut Vec::new()).ok().unwrap();
    assert!(text.contains("    client: &ApiClient,\n    org_id: &str,\n    limit: Option<i32>,\n) -> Result<()> {\n"));
    assert!(text.contains("&format!(\"/orgs/{orgId}/items\", orgId = org_id, )"));
}

#[test]
fn request_body_without_attachable_type_warns() {
    let mut c = components();
    c.request_bodies.insert("Csv".to_string(), RefOr::Object(RequestBody { content: content(vec![("text/csv", None)]) }));
    let mut warnings = Vec::new();
    let handle = Some(RefOr::Ref("#/components/requestBodies/Csv".to_string()));
    let text = generate_attach(&handle, &c, &mut warnings).ok().unwrap();
    assert_eq!(text, "");
    assert_eq!(warnings.len(), 1);
    assert_eq!(warnings[0].kind, WarningKind::UnsupportedBodyType);
}
