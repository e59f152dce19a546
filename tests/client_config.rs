use openapi_client_gen::client_config::{
    generate_builder, generate_client_configs, generate_client_method, generate_config_method,
    replace_first_with_nothing, BUILDER_SOURCE,
};
use openapi_client_gen::diagnostics::ErrorKind;
use openapi_client_gen::document::{NamedMap, Server, ServerVariable};

fn server(url: &str, description: Option<&str>, vars: Vec<(&str, &str)>) -> Server {
    let mut variables = NamedMap::new();
    for (name, default) in vars {
        variables.insert(name.to_string(), ServerVariable { default: default.to_string() });
    }
    Server { url: url.to_string(), description: description.map(|d| d.to_string()), variables }
}

#[test]
fn server_without_variables() {
    let text = generate_client_method(&server("https://studio.fiberplane.com", Some("Production servers"), vec![]))
        .ok()
        .unwrap();
    assert!(text.starts_with("pub fn production_client() -> Result<ApiClient> {\n    let url = \"https://studio.fiberplane.com\";\n\n"));
    assert!(text.ends_with("    })\n}\n\n"));
}

#[test]
fn server_with_variables() {
    let s = server("{protocol}://{host}", Some("Custom servers"), vec![("protocol", "https"), ("host", "localhost")]);
    let text = generate_client_method(&s).ok().unwrap();
    assert!(text.starts_with(
        "pub fn custom_client(\n    protocol: Option<&str>,\n    host: Option<&str>,\n) -> Result<ApiClient> {\n\
         \x20   let protocol = protocol.unwrap_or(\"https\");\n    let host = host.unwrap_or(\"localhost\");\n\
         \x20   let url = &format!(\"{protocol}://{host}\", protocol = protocol, host = host);\n\n"
    ));
}

#[test]
fn server_without_description_fails() {
    match generate_client_method(&server("https://x", None, vec![])) {
        Err(e) => {
            assert_eq!(e.kind, ErrorKind::MissingServerDescription);
            assert_eq!(e.detail, "https://x");
        },
        Ok(_) => panic!("expected an error"),
    }
}

#[test]
fn first_occurrence_is_removed() {
    assert_eq!(replace_first_with_nothing("servers of servers", "servers"), " of servers");
    assert_eq!(replace_first_with_nothing("none here", "servers"), "none here");
    assert_eq!(replace_first_with_nothing("abc", ""), "abc");
}

#[test]
fn client_files_are_assembled_in_order() {
    let files = generate_client_configs(&vec![
        server("https://a", Some("Alpha servers"), vec![]),
        server("https://b", Some("Beta servers"), vec![]),
    ])
    .ok()
    .unwrap();
    let config = generate_config_method();
    assert!(files.clients.contains(&config));
    let a = files.clients.find("pub fn alpha_client()").unwrap();
    let b = files.clients.find("pub fn beta_client()").unwrap();
    assert!(a < b);
    assert!(files.clients.starts_with("use anyhow::{Context as _, Result};\n"));
    assert!(files.clients.ends_with("        ApiClientBuilder::new(base_url)\n    }\n}\n"));
    assert_eq!(files.builder, BUILDER_SOURCE);
    assert_eq!(generate_builder(), BUILDER_SOURCE);
}
