use openapi_client_gen::args::Args;
use openapi_client_gen::manifest::{add_dependencies, fp_dependency, package_edits, Dependency, Inheritable};

fn args() -> Args {
    Args {
        file: "api.yaml".to_string(),
        output: "out".to_string(),
        force: false,
        crate_version: Some("1.2.3".to_string()),
        license: Some("MIT".to_string()),
        description: Some("client".to_string()),
        readme: None,
        documentation: None,
        repository: Some("https://example.com/repo".to_string()),
        local: false,
        workspace: false,
        models: vec![],
    }
}

#[test]
fn package_fields_are_set_from_options() {
    let e = package_edits(&args());
    assert!(matches!(e.version, Some(Inheritable::Value(ref v)) if v == "1.2.3"));
    assert!(matches!(e.license, Some(Inheritable::Value(ref v)) if v == "MIT"));
    assert_eq!(e.description.as_deref(), Some("client"));
    assert!(e.readme.is_none());
    assert!(e.documentation.is_none());
    assert!(matches!(e.repository, Some(Inheritable::Value(_))));
}

#[test]
fn workspace_inherits_package_fields() {
    let mut a = args();
    a.workspace = true;
    a.readme = Some("README.md".to_string());
    let e = package_edits(&a);
    assert!(matches!(e.readme, Some(Inheritable::Inherited)));
    assert!(matches!(e.version, Some(Inheritable::Inherited)));
    assert!(matches!(e.license, Some(Inheritable::Inherited)));
    assert!(matches!(e.repository, Some(Inheritable::Inherited)));
    assert_eq!(e.description.as_deref(), Some("client"));
}

#[test]
fn dependencies_in_order() {
    let deps = add_dependencies(&args());
    let names: Vec<&str> = deps.iter().map(|(n, _)| n.as_str()).collect();
    assert_eq!(
        names,
        vec!["serde", "serde_json", "anyhow", "secrecy", "reqwest", "base64uuid", "fiberplane-models", "time", "bytes"]
    );
    match &deps[4].1 {
        Dependency::Detailed(d) => {
            assert_eq!(d.version.as_deref(), Some("0.11"));
            assert_eq!(d.features, vec!["gzip", "json", "multipart", "rustls-tls"]);
            assert!(!d.default_features);
        },
        _ => panic!("expected a table"),
    }
    assert!(matches!(&deps[1].1, Dependency::Simple(v) if v == "1"));
}

#[test]
fn shared_crates_follow_the_source_option() {
    match fp_dependency("base64uuid", &args(), vec![]) {
        Dependency::Detailed(d) => {
            assert_eq!(d.git.as_deref(), Some("ssh://git@github.com/fiberplane/fiberplane-rs.git"));
            assert_eq!(d.branch.as_deref(), Some("main"));
        },
        _ => panic!("expected a table"),
    }
    let mut a = args();
    a.local = true;
    match fp_dependency("base64uuid", &a, vec![]) {
        Dependency::Detailed(d) => {
            assert_eq!(d.path.as_deref(), Some("../base64uuid"));
            assert_eq!(d.version.as_deref(), Some("1.2.3"));
        },
        _ => panic!("expected a table"),
    }
    a.workspace = true;
    assert!(matches!(fp_dependency("base64uuid", &a, vec!["x".to_string()]), Dependency::Inherited(f) if f == vec!["x"]));
}
