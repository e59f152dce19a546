//! The string transforms that generation takes from other crates: case
//! conversion, reserved-word detection and path placeholder matching.
use vstd::prelude::*;
use check_keyword::CheckKeyword;
use convert_case::{Case, Casing};

verus! {

#[verifier::external_type_specification]
#[verifier::external_body]
pub struct ExRegexError(regex::Error);

/// The snake_case form of `s` as convert_case computes it.
pub uninterp spec fn snake_case_of(s: Seq<char>) -> Seq<char>;

/// The PascalCase form of `s` as convert_case computes it.
pub uninterp spec fn pascal_case_of(s: Seq<char>) -> Seq<char>;

/// Whether `s` is a strict or reserved keyword of Rust 2021: the words that
/// cannot name a field.
pub open spec fn is_keyword_of(s: Seq<char>) -> bool {
    s == "as"@ || s == "break"@ || s == "const"@ || s == "continue"@ || s == "crate"@ || s
        == "else"@ || s == "enum"@ || s == "extern"@ || s == "false"@ || s == "fn"@ || s == "for"@
        || s == "if"@ || s == "impl"@ || s == "in"@ || s == "let"@ || s == "loop"@ || s == "match"@
        || s == "mod"@ || s == "move"@ || s == "mut"@ || s == "pub"@ || s == "ref"@ || s
        == "return"@ || s == "self"@ || s == "Self"@ || s == "static"@ || s == "struct"@ || s
        == "super"@ || s == "trait"@ || s == "true"@ || s == "type"@ || s == "unsafe"@ || s
        == "use"@ || s == "where"@ || s == "while"@ || s == "async"@ || s == "await"@ || s
        == "dyn"@ || s == "abstract"@ || s == "become"@ || s == "box"@ || s == "do"@ || s
        == "final"@ || s == "macro"@ || s == "override"@ || s == "priv"@ || s == "typeof"@ || s
        == "unsized"@ || s == "virtual"@ || s == "yield"@ || s == "try"@
}

/// For each match of the pattern `\{(.*?)\}` in `s`, from left to right, the
/// text of its capture group: the placeholder names of a path template.
pub uninterp spec fn placeholder_names_of(s: Seq<char>) -> Seq<Seq<char>>;

/// Relies on convert_case's `Casing::to_case` with `Case::Snake`.
#[verifier::external_body]
pub(crate) fn to_snake_case(s: &str) -> (r: String)
    ensures
        r@ == snake_case_of(s@),
{
    s.to_case(Case::Snake)
}

/// Relies on convert_case's `Casing::to_case` with `Case::Pascal`.
#[verifier::external_body]
pub(crate) fn to_pascal_case(s: &str) -> (r: String)
    ensures
        r@ == pascal_case_of(s@),
{
    s.to_case(Case::Pascal)
}

/// Relies on check_keyword's `CheckKeyword::is_keyword`, built for the 2021
/// edition: a lookup in its table of strict and reserved keywords.
#[verifier::external_body]
pub(crate) fn is_keyword(s: &str) -> (r: bool)
    ensures
        r == is_keyword_of(s@),
{
    s.is_keyword()
}

/// Relies on regex's `Regex::new` and `Regex::captures_iter`: builds the
/// pattern `\{(.*?)\}`, which is valid and far below the size limit, so
/// building succeeds; its capture group takes part in every match, so each
/// match yields a name.
#[verifier::external_body]
pub(crate) fn capture_placeholders(s: &str) -> (r: Result<Vec<String>, regex::Error>)
    ensures
        r is Ok,
        r matches Ok(v) ==> v@.len() == placeholder_names_of(s@).len() && forall|k: int|
            0 <= k < v@.len() ==> #[trigger] v@[k]@ == placeholder_names_of(s@)[k],
{
    let pattern = regex::Regex::new(r"\{(.*?)\}")?;
    Ok(pattern.captures_iter(s).map(|c| c[1].to_string()).collect())
}

} // verus!
