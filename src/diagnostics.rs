//! Errors that abort generation, and warnings that let it go on.
use vstd::prelude::*;

verus! {

/// Why generation stopped.
#[derive(Clone, Copy, Debug, PartialEq, Eq, Structural)]
pub enum ErrorKind {
    /// An operation has no `operationId`; the detail is `"<METHOD> <path>"`.
    MissingOperationId,
    /// A pointer resolved to another category than the one asked for; the
    /// detail names the category that was expected.
    UnexpectedEntity,
    /// A pointer has no category segment; the detail is the pointer.
    NoComponentName,
    /// A pointer has no name segment; the detail is the pointer.
    NoModelName,
    /// A pointer chain is longer than the registry, so it loops; the detail
    /// is the pointer where the chain was given up.
    ReferenceCycle,
    /// No type rule applies to a schema; the detail names the field.
    UnmappableType,
    /// A request body offers none of the supported media types.
    NoSupportedMediaType,
    /// A chosen media type carries no schema.
    MissingSchema,
    /// An array schema has no item schema.
    ArrayWithoutItems,
    /// An array's item schema is a boolean schema.
    UnsupportedBoolItems,
    /// An array gives one item schema per position.
    UnsupportedItemList,
    /// An object property is a boolean schema; the detail names the property.
    UnsupportedBoolProperty,
    /// A server has no description; the detail is its URL.
    MissingServerDescription,
}

/// A fatal generation error: what went wrong and the text it concerns.
#[derive(Debug)]
pub struct GenError {
    pub kind: ErrorKind,
    pub detail: String,
}

impl GenError {
    /// An error of `kind` about `detail`.
    pub fn new(kind: ErrorKind, detail: &str) -> (r: GenError)
        ensures
            r@ == (kind, detail@),
    {
        GenError { kind, detail: crate::text::owned(detail) }
    }
}

impl View for GenError {
    type V = (ErrorKind, Seq<char>);

    open spec fn view(&self) -> (ErrorKind, Seq<char>) {
        (self.kind, self.detail@)
    }
}

/// A condition that generation reports and then works around.
#[derive(Clone, Copy, Debug, PartialEq, Eq, Structural)]
pub enum WarningKind {
    /// A pointer names a category the registry does not have; it resolves to
    /// nothing. The detail is the category.
    UnsupportedComponent,
    /// A schema has no object shape and yields an empty record; the detail is
    /// the schema's name.
    NoObjectShape,
    /// A request body media type other than JSON, form data or an octet stream
    /// was passed over; the detail is the media type.
    IgnoredMediaType,
    /// A success response has no JSON, text or octet-stream content and is
    /// returned as raw bytes; the detail is its first media type.
    UnknownResponseMime,
    /// A query-building parameter is neither in the path nor the query; the
    /// detail is its location.
    UnknownParameterLocation,
    /// A request body has no content that can be attached to the request.
    UnsupportedBodyType,
}

/// A non-fatal diagnostic.
#[derive(Debug)]
pub struct Warning {
    pub kind: WarningKind,
    pub detail: String,
}

impl View for Warning {
    type V = (WarningKind, Seq<char>);

    open spec fn view(&self) -> (WarningKind, Seq<char>) {
        (self.kind, self.detail@)
    }
}

/// The view of an error.
pub type ErrorView = (ErrorKind, Seq<char>);

/// The view of a warning.
pub type WarningView = (WarningKind, Seq<char>);

/// The view of a generation result that yields text.
pub open spec fn text_result(r: Result<String, GenError>) -> Result<Seq<char>, ErrorView> {
    match r {
        Ok(s) => Ok(s@),
        Err(e) => Err(e@),
    }
}

/// `a` is the start of `b`.
pub open spec fn starts_with<T>(b: Seq<T>, a: Seq<T>) -> bool {
    a.len() <= b.len() && b.subrange(0, a.len() as int) == a
}

/// The views of a list of warnings.
pub open spec fn warnings_view(w: Seq<Warning>) -> Seq<(WarningKind, Seq<char>)> {
    w.map_values(|x: Warning| x@)
}

} // verus!
