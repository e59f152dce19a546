//! The options of a generation run.
use vstd::prelude::*;

verus! {

/// What to generate from which document, and the package metadata of the
/// generated crate.
pub struct Args {
    /// Path to the input OpenAPI document.
    pub file: String,
    /// Path to the crate that will be generated.
    pub output: String,
    /// Overwrite the output crate if it exists.
    pub force: bool,
    /// Version of the generated crate; local dependencies are referenced with
    /// the same version. Ignored when `workspace` is set.
    pub crate_version: Option<String>,
    /// License of the generated crate; inherited when `workspace` is set.
    pub license: Option<String>,
    /// Description of the generated crate.
    pub description: Option<String>,
    /// Readme path of the generated crate; inherited when `workspace` is set.
    pub readme: Option<String>,
    /// Documentation URL of the generated crate; inherited when `workspace`
    /// is set.
    pub documentation: Option<String>,
    /// Repository URL of the generated crate; inherited when `workspace` is set.
    pub repository: Option<String>,
    /// The shared model crates live next to the generated crate.
    pub local: bool,
    /// The shared model crates and the package metadata come from the workspace.
    pub workspace: bool,
    /// Paths re-exported by the generated `models` module.
    pub models: Vec<String>,
}

} // verus!
