//! The package metadata and dependencies that the generated crate's
//! manifest receives.
use vstd::prelude::*;
use vstd::string::StringExecFns;
use crate::text::owned;
use crate::args::Args;
use crate::models::strings_view;

verus! {

/// A manifest value: inherited from the workspace, or set.
pub enum Inheritable {
    Inherited,
    Value(String),
}

/// The package fields to set; `None` leaves a field as it is.
pub struct PackageEdits {
    pub version: Option<Inheritable>,
    pub license: Option<Inheritable>,
    pub description: Option<String>,
    pub readme: Option<Inheritable>,
    pub documentation: Option<Inheritable>,
    pub repository: Option<Inheritable>,
}

/// A field given as an option is set to it, or inherited in a workspace;
/// an option not given leaves the field alone.
pub open spec fn edit_follows(e: Option<Inheritable>, value: Option<String>, workspace: bool) -> bool {
    match value {
        None => e is None,
        Some(v) => if workspace {
            e matches Some(Inheritable::Inherited)
        } else {
            e matches Some(Inheritable::Value(x)) && x@ == v@
        },
    }
}

/// A field given as an option is set to it.
pub open spec fn set_follows(e: Option<String>, value: Option<String>) -> bool {
    match value {
        None => e is None,
        Some(v) => e matches Some(x) && x@ == v@,
    }
}

fn clone_opt(o: &Option<String>) -> (r: Option<String>)
    ensures
        crate::text::opt_view(r) == crate::text::opt_view(*o),
{
    match o {
        Some(s) => Some(s.clone()),
        None => None,
    }
}

fn inherit_or_set(value: &Option<String>, workspace: bool) -> (r: Option<Inheritable>)
    ensures
        edit_follows(r, *value, workspace),
{
    match value {
        None => None,
        Some(v) => if workspace {
            Some(Inheritable::Inherited)
        } else {
            Some(Inheritable::Value(v.clone()))
        },
    }
}

/// The package fields that the options ask for. In a workspace the version
/// is inherited; otherwise it is the given version, if any.
pub fn package_edits(args: &Args) -> (r: PackageEdits)
    ensures
        args.workspace ==> r.version matches Some(Inheritable::Inherited),
        !args.workspace ==> set_follows(
            match r.version {
                Some(Inheritable::Value(v)) => Some(v),
                _ => None,
            },
            args.crate_version,
        ) && !(r.version matches Some(Inheritable::Inherited)),
        edit_follows(r.license, args.license, args.workspace),
        set_follows(r.description, args.description),
        edit_follows(r.readme, args.readme, args.workspace),
        edit_follows(r.documentation, args.documentation, args.workspace),
        edit_follows(r.repository, args.repository, args.workspace),
{
    let version = if args.workspace {
        Some(Inheritable::Inherited)
    } else {
        match &args.crate_version {
            Some(v) => Some(Inheritable::Value(v.clone())),
            None => None,
        }
    };
    PackageEdits {
        version,
        license: inherit_or_set(&args.license, args.workspace),
        description: clone_opt(&args.description),
        readme: inherit_or_set(&args.readme, args.workspace),
        documentation: inherit_or_set(&args.documentation, args.workspace),
        repository: inherit_or_set(&args.repository, args.workspace),
    }
}

/// A dependency entry of the manifest.
pub enum Dependency {
    /// Just a version requirement.
    Simple(String),
    /// A table with a source and features.
    Detailed(DependencyDetail),
    /// Taken from the workspace, with extra features.
    Inherited(Vec<String>),
}

/// The table form of a dependency.
pub struct DependencyDetail {
    pub version: Option<String>,
    pub features: Vec<String>,
    pub default_features: bool,
    pub path: Option<String>,
    pub git: Option<String>,
    pub branch: Option<String>,
}

/// Where the shared model crates are taken from.
pub enum DependencySource {
    Workspace,
    /// A sibling directory, with an optional version.
    Local(Seq<char>, Option<Seq<char>>),
    /// The project's git repository.
    Git,
}

/// The source of a dependency on a shared model crate named `name`.
pub open spec fn shared_source(name: Seq<char>, args: Args) -> DependencySource {
    if args.workspace {
        DependencySource::Workspace
    } else if args.local {
        DependencySource::Local("../"@ + name, crate::text::opt_view(args.crate_version))
    } else {
        DependencySource::Git
    }
}

/// Whether `d` is a dependency with `features` from `source`.
pub open spec fn dependency_from(d: Dependency, source: DependencySource, features: Seq<Seq<char>>) -> bool {
    match (d, source) {
        (Dependency::Inherited(f), DependencySource::Workspace) => strings_view(f@) == features,
        (Dependency::Detailed(x), DependencySource::Local(path, version)) => crate::text::opt_view(
            x.path,
        ) == Some(path) && crate::text::opt_view(x.version) == version && strings_view(
            x.features@,
        ) == features && x.git is None && x.branch is None && !x.default_features,
        (Dependency::Detailed(x), DependencySource::Git) => crate::text::opt_view(x.git) == Some(
            "ssh://git@github.com/fiberplane/fiberplane-rs.git"@,
        ) && crate::text::opt_view(x.branch) == Some("main"@) && x.path is None && x.version is None
            && strings_view(x.features@) == features && !x.default_features,
        _ => false,
    }
}


/// A dependency on a crate of the shared model repository.
pub fn fp_dependency(name: &str, args: &Args, features: Vec<String>) -> (r: Dependency)
    ensures
        dependency_from(r, shared_source(name@, *args), strings_view(features@)),
{
    if args.workspace {
        Dependency::Inherited(features)
    } else if args.local {
        let mut path = owned("../");
        path.append(name);
        Dependency::Detailed(
            DependencyDetail {
                version: clone_opt(&args.crate_version),
                features,
                default_features: false,
                path: Some(path),
                git: None,
                branch: None,
            },
        )
    } else {
        Dependency::Detailed(
            DependencyDetail {
                version: None,
                features,
                default_features: false,
                path: None,
                git: Some(owned("ssh://git@github.com/fiberplane/fiberplane-rs.git")),
                branch: Some(owned("main")),
            },
        )
    }
}

/// A registry dependency with a version requirement and features.
pub open spec fn registry_dependency(d: Dependency, version: Seq<char>, features: Seq<Seq<char>>) -> bool {
    d matches Dependency::Detailed(x) && crate::text::opt_view(x.version) == Some(version)
        && strings_view(x.features@) == features && !x.default_features && x.path is None
        && x.git is None && x.branch is None
}

/// A dependency given by its version requirement alone.
pub open spec fn simple_dependency(d: Dependency, version: Seq<char>) -> bool {
    d matches Dependency::Simple(v) && v@ == version
}

/// The dependencies that generated code needs, in the order they are added:
/// serialization, the HTTP client and its errors, secrets, the shared model
/// crates, time handling and byte buffers.
pub open spec fn dependencies_spec(deps: Seq<(String, Dependency)>, args: Args) -> bool {
    &&& deps.len() == 9
    &&& deps[0].0@ == "serde"@ && registry_dependency(deps[0].1, "1"@, seq!["derive"@])
    &&& deps[1].0@ == "serde_json"@ && simple_dependency(deps[1].1, "1"@)
    &&& deps[2].0@ == "anyhow"@ && simple_dependency(deps[2].1, "1"@)
    &&& deps[3].0@ == "secrecy"@ && simple_dependency(deps[3].1, "0"@)
    &&& deps[4].0@ == "reqwest"@ && registry_dependency(
        deps[4].1,
        "0.11"@,
        seq!["gzip"@, "json"@, "multipart"@, "rustls-tls"@],
    )
    &&& deps[5].0@ == "base64uuid"@ && dependency_from(
        deps[5].1,
        shared_source("base64uuid"@, args),
        Seq::empty(),
    )
    &&& deps[6].0@ == "fiberplane-models"@ && dependency_from(
        deps[6].1,
        shared_source("fiberplane-models"@, args),
        Seq::empty(),
    )
    &&& deps[7].0@ == "time"@ && registry_dependency(
        deps[7].1,
        "0.3"@,
        seq!["formatting"@, "parsing"@, "serde-human-readable"@, "serde-well-known"@],
    )
    &&& deps[8].0@ == "bytes"@ && simple_dependency(deps[8].1, "1"@)
}

fn registry(version: &str, features: Vec<String>) -> (r: Dependency)
    ensures
        registry_dependency(r, version@, strings_view(features@)),
{
    Dependency::Detailed(
        DependencyDetail {
            version: Some(owned(version)),
            features,
            default_features: false,
            path: None,
            git: None,
            branch: None,
        },
    )
}

/// The dependencies to add to the generated crate's manifest.
pub fn add_dependencies(args: &Args) -> (r: Vec<(String, Dependency)>)
    ensures
        dependencies_spec(r@, *args),
{
    let mut deps: Vec<(String, Dependency)> = Vec::new();
    let serde_features = vec![owned("derive")];
    assert(strings_view(serde_features@) =~= seq!["derive"@]);
    deps.push((owned("serde"), registry("1", serde_features)));
    deps.push((owned("serde_json"), Dependency::Simple(owned("1"))));
    deps.push((owned("anyhow"), Dependency::Simple(owned("1"))));
    deps.push((owned("secrecy"), Dependency::Simple(owned("0"))));
    let reqwest_features = vec![owned("gzip"), owned("json"), owned("multipart"), owned("rustls-tls")];
    assert(strings_view(reqwest_features@) =~= seq!["gzip"@, "json"@, "multipart"@, "rustls-tls"@]);
    deps.push((owned("reqwest"), registry("0.11", reqwest_features)));
    let none1: Vec<String> = Vec::new();
    assert(strings_view(none1@) =~= Seq::<Seq<char>>::empty());
    deps.push((owned("base64uuid"), fp_dependency("base64uuid", args, none1)));
    let none2: Vec<String> = Vec::new();
    assert(strings_view(none2@) =~= Seq::<Seq<char>>::empty());
    deps.push((owned("fiberplane-models"), fp_dependency("fiberplane-models", args, none2)));
    let time_features = vec![
        owned("formatting"),
        owned("parsing"),
        owned("serde-human-readable"),
        owned("serde-well-known"),
    ];
    assert(strings_view(time_features@) =~= seq![
        "formatting"@,
        "parsing"@,
        "serde-human-readable"@,
        "serde-well-known"@,
    ]);
    deps.push((owned("time"), registry("0.3", time_features)));
    deps.push((owned("bytes"), Dependency::Simple(owned("1"))));
    deps
}

} // verus!
