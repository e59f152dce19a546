//! The route synthesizer: one async request function per operation.
use vstd::prelude::*;
use vstd::string::StringExecFns;
use crate::diagnostics::{
    starts_with, text_result, warnings_view, ErrorKind, ErrorView, GenError, Warning, WarningKind,
    WarningView,
};
use crate::document::{
    lookup, ArrayShape, Components, Items, MediaType, Parameter, ParameterValue, RefOr,
    RequestBody, Response, Schema, SchemaNode,
};
use crate::models::{strings_view, wrap_optional};
use crate::naming::{capture_placeholders, placeholder_names_of, snake_case_of, to_snake_case};
use crate::resolve::{
    parameter_handle_spec, request_body_handle_spec, resolve, response_handle_spec, Entity, Resolution, ResolutionView, ResolveTarget, Resolved,
};
use crate::text::{opt_view, owned, str_eq};
use crate::types::{map_type, map_type_spec, models_path_spec, reference_name_to_models_path};

verus! {



/// The warning a resolution reports: a category the registry lacks.
pub open spec fn resolution_warnings(o: Result<ResolutionView, ErrorView>) -> Seq<WarningView> {
    match o {
        Ok(ResolutionView::UnknownCategory(c)) => seq![(WarningKind::UnsupportedComponent, c)],
        _ => Seq::empty(),
    }
}

fn note_resolution(res: &Resolution, warnings: &mut Vec<Warning>)
    ensures
        warnings_view(final(warnings)@) == warnings_view(old(warnings)@) + resolution_warnings(
            Ok(res@),
        ),
{
    let ghost w0 = warnings@;
    if let Resolution::UnknownCategory(c) = res {
        warnings.push(Warning { kind: WarningKind::UnsupportedComponent, detail: c.clone() });
    }
    assert(warnings_view(warnings@) =~= warnings_view(w0) + resolution_warnings(Ok(res@)));
}

// ---------------------------------------------------------------- parameters

/// The declared type of a parameter before optional wrapping, in the
/// borrowed context; a content-described parameter declares no type.
pub open spec fn parameter_type_spec(p: Parameter) -> Option<Seq<char>> {
    match p.value {
        ParameterValue::Schema(s) => map_type_spec(
            opt_view(s.format),
            s.instance_type,
            opt_view(s.reference),
            true,
        ),
        ParameterValue::Content => Some(Seq::empty()),
    }
}

/// The function parameter declared for an operation parameter.
pub open spec fn parameter_line_spec(p: Parameter) -> Result<Seq<char>, ErrorView> {
    match parameter_type_spec(p) {
        None => Err((ErrorKind::UnmappableType, p.name@)),
        Some(t) => Ok("    "@ + snake_case_of(p.name@) + ": "@ + wrap_optional(t, p.required) + ",\n"@),
    }
}

/// The declaration for a resolved parameter handle: nothing when it resolves
/// to nothing, an error when it resolves to another category.
pub open spec fn parameter_decl_spec(o: Result<ResolutionView, ErrorView>) -> Result<Seq<char>, ErrorView> {
    match o {
        Err(e) => Err(e),
        Ok(ResolutionView::Found(Entity::Parameter(p))) => parameter_line_spec(p),
        Ok(ResolutionView::Found(_)) => Err((ErrorKind::UnexpectedEntity, "Parameter"@)),
        Ok(_) => Ok(Seq::empty()),
    }
}

/// The declarations of a list of parameter handles, in order.
pub open spec fn parameters_spec(c: Components, hs: Seq<RefOr<Parameter>>) -> Result<Seq<char>, ErrorView>
    decreases hs.len(),
{
    if hs.len() == 0 {
        Ok(Seq::empty())
    } else {
        match parameters_spec(c, hs.drop_last()) {
            Err(e) => Err(e),
            Ok(prev) => match parameter_decl_spec(parameter_handle_spec(hs.last(), c)) {
                Err(e) => Err(e),
                Ok(line) => Ok(prev + line),
            },
        }
    }
}

/// The warnings of declaring a list of parameter handles.
pub open spec fn parameters_warnings(c: Components, hs: Seq<RefOr<Parameter>>) -> Seq<WarningView>
    decreases hs.len(),
{
    if hs.len() == 0 {
        Seq::empty()
    } else {
        parameters_warnings(c, hs.drop_last()) + resolution_warnings(
            parameter_handle_spec(hs.last(), c),
        )
    }
}

pub proof fn lemma_parameters_error_prefix(c: Components, hs: Seq<RefOr<Parameter>>, k: int)
    requires
        0 <= k <= hs.len(),
        parameters_spec(c, hs.take(k)) is Err,
    ensures
        parameters_spec(c, hs) == parameters_spec(c, hs.take(k)),
    decreases hs.len(),
{
    if k < hs.len() {
        assert(hs.drop_last().take(k) =~= hs.take(k));
        lemma_parameters_error_prefix(c, hs.drop_last(), k);
    } else {
        assert(hs.take(k) =~= hs);
    }
}

fn parameter_line(p: &Parameter) -> (r: Result<String, GenError>)
    ensures
        text_result(r) == parameter_line_spec(*p),
{
    let ty = match &p.value {
        ParameterValue::Schema(s) => match map_type(&s.format, &s.instance_type, &s.reference, true) {
            Some(t) => t,
            None => {
                return Err(GenError::new(ErrorKind::UnmappableType, p.name.as_str()));
            },
        },
        ParameterValue::Content => String::new(),
    };
    let mut out = owned("    ");
    let snake = to_snake_case(p.name.as_str());
    out.append(snake.as_str());
    out.append(": ");
    if !p.required {
        out.append("Option<");
    }
    out.append(ty.as_str());
    if !p.required {
        out.append(">");
    }
    out.append(",\n");
    assert(out@ =~= "    "@ + snake_case_of(p.name@) + ": "@ + wrap_optional(ty@, p.required) + ",\n"@);
    Ok(out)
}

/// Declares the function parameters for a list of parameter handles.
pub fn generate_parameters(
    list: &Vec<RefOr<Parameter>>,
    components: &Components,
    warnings: &mut Vec<Warning>,
) -> (r: Result<String, GenError>)
    ensures
        text_result(r) == parameters_spec(*components, list@),
        r is Ok ==> warnings_view(final(warnings)@) == warnings_view(old(warnings)@)
            + parameters_warnings(*components, list@),
        starts_with(warnings_view(final(warnings)@), warnings_view(old(warnings)@)),
{
    let ghost hs = list@;
    let ghost c = *components;
    let mut out = String::new();
    let mut i: usize = 0;
    proof {
        assert(hs.take(0) =~= Seq::<RefOr<Parameter>>::empty());
        assert(warnings_view(warnings@) =~= warnings_view(old(warnings)@) + parameters_warnings(
            c,
            hs.take(0),
        ));
    }
    while i < list.len()
        invariant
            hs == list@,
            c == *components,
            i <= hs.len(),
            parameters_spec(c, hs.take(i as int)) == Ok::<Seq<char>, ErrorView>(out@),
            warnings_view(warnings@) == warnings_view(old(warnings)@) + parameters_warnings(
                c,
                hs.take(i as int),
            ),
        decreases list.len() - i,
    {
        proof {
            assert(hs.take(i + 1).drop_last() =~= hs.take(i as int));
            assert(hs.take(i + 1).last() == hs[i as int]);
            assert(warnings_view(warnings@).subrange(0, warnings_view(old(warnings)@).len() as int)
                =~= warnings_view(old(warnings)@));
        }
        let res = resolve(ResolveTarget::Parameter(Some(&list[i])), components);
        let line = match res {
            Err(e) => {
                proof {
                    lemma_parameters_error_prefix(c, hs, i + 1);
                }
                return Err(e);
            },
            Ok(found) => {
                note_resolution(&found, warnings);
                match found {
                    Resolution::Found(Resolved::Parameter(p)) => parameter_line(p),
                    Resolution::Found(_) => Err(GenError::new(ErrorKind::UnexpectedEntity, "Parameter")),
                    _ => Ok(String::new()),
                }
            },
        };
        proof {
            assert(warnings_view(warnings@).subrange(0, warnings_view(old(warnings)@).len() as int)
                =~= warnings_view(old(warnings)@));
        }
        match line {
            Err(e) => {
                proof {
                    lemma_parameters_error_prefix(c, hs, i + 1);
                }
                return Err(e);
            },
            Ok(l) => {
                out.append(l.as_str());
            },
        }
        proof {
            assert(warnings_view(warnings@) =~= warnings_view(old(warnings)@) + parameters_warnings(
                c,
                hs.take(i + 1),
            ));
        }
        i = i + 1;
    }
    proof {
        assert(hs.take(i as int) =~= hs);
        assert(warnings_view(warnings@).subrange(0, warnings_view(old(warnings)@).len() as int)
            =~= warnings_view(old(warnings)@));
    }
    Ok(out)
}

// ------------------------------------------------------------- request body

/// The media types a request body may be sent as.
pub open spec fn accepted_media(ct: Seq<char>) -> bool {
    ct == "application/json"@ || ct == "multipart/form-data"@ || ct == "application/octet-stream"@
}

/// The first entry of an accepted media type.
pub open spec fn first_accepted(content: Seq<(Seq<char>, MediaType)>) -> Option<MediaType>
    decreases content.len(),
{
    if content.len() == 0 {
        None
    } else {
        match first_accepted(content.drop_last()) {
            Some(m) => Some(m),
            None => if accepted_media(content.last().0) {
                Some(content.last().1)
            } else {
                None
            },
        }
    }
}

/// One warning per media type that is passed over, in order.
pub open spec fn media_warnings(content: Seq<(Seq<char>, MediaType)>) -> Seq<WarningView>
    decreases content.len(),
{
    if content.len() == 0 {
        Seq::empty()
    } else {
        media_warnings(content.drop_last()) + if accepted_media(content.last().0) {
            Seq::<WarningView>::empty()
        } else {
            seq![(WarningKind::IgnoredMediaType, content.last().0)]
        }
    }
}

/// The element type of an array schema: exactly one item schema object.
pub open spec fn items_type_spec(a: ArrayShape, as_ref: bool, field: Seq<char>) -> Result<
    Seq<char>,
    ErrorView,
> {
    match a.items {
        None => Err((ErrorKind::ArrayWithoutItems, field)),
        Some(Items::Multiple(_)) => Err((ErrorKind::UnsupportedItemList, field)),
        Some(Items::Single(n)) => match *n {
            SchemaNode::Bool(_) => Err((ErrorKind::UnsupportedBoolItems, field)),
            SchemaNode::Object(o) => match map_type_spec(
                opt_view(o.format),
                o.instance_type,
                opt_view(o.reference),
                as_ref,
            ) {
                None => Err((ErrorKind::UnmappableType, field)),
                Some(t) => Ok(t),
            },
        },
    }
}

/// The `payload` parameter for a body schema: a named record, a list of one
/// item type, or an inline type.
pub open spec fn payload_line_spec(s: Schema) -> Result<Seq<char>, ErrorView> {
    match s.reference {
        Some(r) => Ok("    payload: "@ + models_path_spec(r@) + "\n"@),
        None => match s.array {
            Some(a) => match items_type_spec(a, true, "payload"@) {
                Err(e) => Err(e),
                Ok(t) => Ok("    payload: Vec<"@ + t + ">\n"@),
            },
            None => match map_type_spec(
                opt_view(s.format),
                s.instance_type,
                opt_view(s.reference),
                true,
            ) {
                None => Err((ErrorKind::UnmappableType, "payload"@)),
                Some(t) => Ok("    payload: "@ + t + ",\n"@),
            },
        },
    }
}

/// The `payload` parameter for a request body: from the schema of its first
/// accepted media type.
pub open spec fn payload_spec(b: RequestBody) -> Result<Seq<char>, ErrorView> {
    match first_accepted(b.content@) {
        None => Err((ErrorKind::NoSupportedMediaType, Seq::empty())),
        Some(m) => match m.schema {
            None => Err((ErrorKind::MissingSchema, "payload"@)),
            Some(s) => payload_line_spec(s),
        },
    }
}

/// The declaration for a resolved request-body handle.
pub open spec fn body_decl_spec(o: Result<ResolutionView, ErrorView>) -> Result<Seq<char>, ErrorView> {
    match o {
        Err(e) => Err(e),
        Ok(ResolutionView::Found(Entity::RequestBody(b))) => payload_spec(b),
        Ok(ResolutionView::Found(_)) => Err((ErrorKind::UnexpectedEntity, "RequestBody"@)),
        Ok(_) => Ok(Seq::empty()),
    }
}

/// The warnings of declaring a resolved request-body handle.
pub open spec fn body_decl_warnings(o: Result<ResolutionView, ErrorView>) -> Seq<WarningView> {
    resolution_warnings(o) + match o {
        Ok(ResolutionView::Found(Entity::RequestBody(b))) => media_warnings(b.content@),
        _ => Seq::empty(),
    }
}

fn is_accepted_media(ct: &str) -> (r: bool)
    ensures
        r == accepted_media(ct@),
{
    str_eq(ct, "application/json") || str_eq(ct, "multipart/form-data") || str_eq(
        ct,
        "application/octet-stream",
    )
}

fn items_type(a: &ArrayShape, as_ref: bool, field: &str) -> (r: Result<String, GenError>)
    ensures
        text_result(r) == items_type_spec(*a, as_ref, field@),
{
    match &a.items {
        None => Err(GenError::new(ErrorKind::ArrayWithoutItems, field)),
        Some(Items::Multiple(_)) => Err(GenError::new(ErrorKind::UnsupportedItemList, field)),
        Some(Items::Single(n)) => match &**n {
            SchemaNode::Bool(_) => Err(GenError::new(ErrorKind::UnsupportedBoolItems, field)),
            SchemaNode::Object(o) => match map_type(&o.format, &o.instance_type, &o.reference, as_ref) {
                None => Err(GenError::new(ErrorKind::UnmappableType, field)),
                Some(t) => Ok(t),
            },
        },
    }
}

fn payload_line(s: &Schema) -> (r: Result<String, GenError>)
    ensures
        text_result(r) == payload_line_spec(*s),
{
    match &s.reference {
        Some(r) => {
            let mut out = owned("    payload: ");
            let path = reference_name_to_models_path(r.as_str());
            out.append(path.as_str());
            out.append("\n");
            Ok(out)
        },
        None => match &s.array {
            Some(a) => {
                let t = items_type(a, true, "payload")?;
                let mut out = owned("    payload: Vec<");
                out.append(t.as_str());
                out.append(">\n");
                Ok(out)
            },
            None => match map_type(&s.format, &s.instance_type, &s.reference, true) {
                None => Err(GenError::new(ErrorKind::UnmappableType, "payload")),
                Some(t) => {
                    let mut out = owned("    payload: ");
                    out.append(t.as_str());
                    out.append(",\n");
                    Ok(out)
                },
            },
        },
    }
}

/// Declares the `payload` parameter for a request body, reporting each media
/// type that is passed over.
pub fn generate_payload(body: &RequestBody, warnings: &mut Vec<Warning>) -> (r: Result<
    String,
    GenError,
>)
    ensures
        text_result(r) == payload_spec(*body),
        warnings_view(final(warnings)@) == warnings_view(old(warnings)@) + media_warnings(
            body.content@,
        ),
{
    let ghost content = body.content@;
    let n = body.content.len();
    let mut chosen: Option<&MediaType> = None;
    let mut i: usize = 0;
    proof {
        assert(content.take(0) =~= Seq::<(Seq<char>, MediaType)>::empty());
        assert(warnings_view(warnings@) =~= warnings_view(old(warnings)@) + media_warnings(
            content.take(0),
        ));
    }
    while i < n
        invariant
            n == content.len(),
            content == body.content@,
            i <= n,
            chosen is None <==> first_accepted(content.take(i as int)) is None,
            chosen matches Some(m) ==> first_accepted(content.take(i as int)) == Some(*m),
            warnings_view(warnings@) == warnings_view(old(warnings)@) + media_warnings(
                content.take(i as int),
            ),
        decreases n - i,
    {
        proof {
            assert(content.take(i + 1).drop_last() =~= content.take(i as int));
            assert(content.take(i + 1).last() == content[i as int]);
        }
        let ghost w_before = warnings_view(warnings@);
        let (ct, m) = body.content.entry(i);
        if is_accepted_media(ct) {
            if chosen.is_none() {
                chosen = Some(m);
            }
        } else {
            warnings.push(Warning { kind: WarningKind::IgnoredMediaType, detail: owned(ct) });
        }
        proof {
            let extra = if accepted_media(ct@) {
                Seq::<WarningView>::empty()
            } else {
                seq![(WarningKind::IgnoredMediaType, ct@)]
            };
            assert(warnings_view(warnings@) =~= w_before + extra);
            assert(media_warnings(content.take(i + 1)) == media_warnings(content.take(i as int))
                + extra);
            assert(warnings_view(warnings@) =~= warnings_view(old(warnings)@) + media_warnings(
                content.take(i + 1),
            ));
        }
        i = i + 1;
    }
    proof {
        assert(content.take(n as int) =~= content);
    }
    match chosen {
        None => Err(GenError { kind: ErrorKind::NoSupportedMediaType, detail: String::new() }),
        Some(m) => match &m.schema {
            None => Err(GenError::new(ErrorKind::MissingSchema, "payload")),
            Some(s) => payload_line(s),
        },
    }
}

/// Declares the `payload` parameter of an operation, if it has a body.
pub fn generate_body_declaration(
    request_body: &Option<RefOr<RequestBody>>,
    components: &Components,
    warnings: &mut Vec<Warning>,
) -> (r: Result<String, GenError>)
    ensures
        text_result(r) == body_decl_spec(request_body_handle_spec(*request_body, *components)),
        r is Ok ==> warnings_view(final(warnings)@) == warnings_view(old(warnings)@)
            + body_decl_warnings(request_body_handle_spec(*request_body, *components)),
        starts_with(warnings_view(final(warnings)@), warnings_view(old(warnings)@)),
{
    let ghost w0 = warnings_view(warnings@);
    let res = resolve(ResolveTarget::RequestBody(request_body.as_ref()), components);
    let found = match res {
        Err(e) => {
            assert(warnings_view(warnings@).subrange(0, w0.len() as int) =~= w0);
            return Err(e);
        },
        Ok(f) => f,
    };
    note_resolution(&found, warnings);
    let ghost w1 = warnings_view(warnings@);
    let r = match found {
        Resolution::Found(Resolved::RequestBody(b)) => generate_payload(b, warnings),
        Resolution::Found(_) => Err(GenError::new(ErrorKind::UnexpectedEntity, "RequestBody")),
        _ => Ok(String::new()),
    };
    proof {
        assert(warnings_view(warnings@) =~= warnings_view(old(warnings)@) + body_decl_warnings(
            request_body_handle_spec(*request_body, *components),
        ));
        assert(warnings_view(warnings@).subrange(0, w0.len() as int) =~= w0);
    }
    r
}

// ----------------------------------------------------------------- response

/// How a response is decoded.
#[derive(Clone, Copy, Debug, PartialEq, Eq, Structural)]
pub enum ResponseType {
    Json,
    Text,
    Unit,
}

/// The end of a function body that decodes the response as `t` says.
pub open spec fn response_part_spec(t: ResponseType) -> Seq<char> {
    match t {
        ResponseType::Json => "\n        .json()\n        .await?;\n\n    Ok(response)"@,
        ResponseType::Text => "\n        .text()\n        .await?;\n\n    Ok(response)"@,
        ResponseType::Unit => ";\n\n    Ok(())"@,
    }
}

/// The end of a function body that returns the raw response bytes.
pub open spec fn fallback_part_spec() -> Seq<char> {
    "\n        .bytes()\n        .await?;\n\n    Ok(response)"@
}

impl ResponseType {
    /// The statements that decode the response and return it.
    pub fn generate_response_part(&self) -> (r: &'static str)
        ensures
            r@ == response_part_spec(*self),
    {
        match self {
            ResponseType::Json => "\n        .json()\n        .await?;\n\n    Ok(response)",
            ResponseType::Text => "\n        .text()\n        .await?;\n\n    Ok(response)",
            ResponseType::Unit => ";\n\n    Ok(())",
        }
    }

    /// The statements that return the response as raw bytes.
    pub fn fallback_response_part() -> (r: &'static str)
        ensures
            r@ == fallback_part_spec(),
    {
        "\n        .bytes()\n        .await?;\n\n    Ok(response)"
    }
}

/// The return type and decoding of a JSON response schema.
pub open spec fn json_response_spec(s: Schema) -> Result<(Seq<char>, Option<ResponseType>), ErrorView> {
    match s.reference {
        Some(r) => Ok((models_path_spec(r@), Some(ResponseType::Json))),
        None => match s.array {
            Some(a) => match items_type_spec(a, false, "response"@) {
                Err(e) => Err(e),
                Ok(t) => Ok(("Vec<"@ + t + ">"@, Some(ResponseType::Json))),
            },
            None => match map_type_spec(
                opt_view(s.format),
                s.instance_type,
                opt_view(s.reference),
                false,
            ) {
                None => Err((ErrorKind::UnmappableType, "response"@)),
                Some(t) => Ok(
                    (
                        t,
                        if t == "()"@ {
                            Some(ResponseType::Unit)
                        } else {
                            Some(ResponseType::Json)
                        },
                    ),
                ),
            },
        },
    }
}

/// The return type and decoding of a success response: unit without
/// content, JSON, then plain text, else raw bytes (decoding `None`).
pub open spec fn response_shape_spec(resp: Response) -> Result<(Seq<char>, Option<ResponseType>), ErrorView> {
    if resp.content@.len() == 0 {
        Ok(("()"@, Some(ResponseType::Unit)))
    } else {
        match lookup(resp.content@, "application/json"@) {
            Some(m) => match m.schema {
                None => Err((ErrorKind::MissingSchema, "response"@)),
                Some(s) => json_response_spec(s),
            },
            None => if lookup(resp.content@, "text/plain"@) is Some {
                Ok(("String"@, Some(ResponseType::Text)))
            } else {
                Ok(("bytes::Bytes"@, None))
            },
        }
    }
}

/// The return type for a resolved success-response handle; without one the
/// function returns unit.
pub open spec fn response_spec(o: Result<ResolutionView, ErrorView>) -> Result<(Seq<char>, Option<ResponseType>), ErrorView> {
    match o {
        Err(e) => Err(e),
        Ok(ResolutionView::Found(Entity::Response(resp))) => response_shape_spec(resp),
        Ok(ResolutionView::Found(_)) => Err((ErrorKind::UnexpectedEntity, "Response"@)),
        Ok(_) => Ok(("()"@, Some(ResponseType::Unit))),
    }
}

/// Falling back to raw bytes is reported unless the response is an octet stream.
pub open spec fn response_warnings(o: Result<ResolutionView, ErrorView>) -> Seq<WarningView> {
    resolution_warnings(o) + match o {
        Ok(ResolutionView::Found(Entity::Response(resp))) => if resp.content@.len() > 0 && lookup(
            resp.content@,
            "application/json"@,
        ) is None && lookup(resp.content@, "text/plain"@) is None && lookup(
            resp.content@,
            "application/octet-stream"@,
        ) is None {
            seq![(WarningKind::UnknownResponseMime, resp.content@[0].0)]
        } else {
            Seq::empty()
        },
        _ => Seq::empty(),
    }
}

/// The view of a return-type result.
pub open spec fn return_result(r: Result<(String, Option<ResponseType>), GenError>) -> Result<
    (Seq<char>, Option<ResponseType>),
    ErrorView,
> {
    match r {
        Ok(x) => Ok((x.0@, x.1)),
        Err(e) => Err(e@),
    }
}

fn json_response(s: &Schema) -> (r: Result<(String, Option<ResponseType>), GenError>)
    ensures
        return_result(r) == json_response_spec(*s),
{
    match &s.reference {
        Some(r) => Ok((reference_name_to_models_path(r.as_str()), Some(ResponseType::Json))),
        None => match &s.array {
            Some(a) => {
                let t = items_type(a, false, "response")?;
                let mut out = owned("Vec<");
                out.append(t.as_str());
                out.append(">");
                Ok((out, Some(ResponseType::Json)))
            },
            None => match map_type(&s.format, &s.instance_type, &s.reference, false) {
                None => Err(GenError::new(ErrorKind::UnmappableType, "response")),
                Some(t) => {
                    let unit = str_eq(t.as_str(), "()");
                    if unit {
                        Ok((t, Some(ResponseType::Unit)))
                    } else {
                        Ok((t, Some(ResponseType::Json)))
                    }
                },
            },
        },
    }
}

/// The return type of an operation and how its response is decoded, from
/// its success (200) response.
pub fn generate_return_type(
    responses: &crate::document::NamedMap<RefOr<Response>>,
    components: &Components,
    warnings: &mut Vec<Warning>,
) -> (r: Result<(String, Option<ResponseType>), GenError>)
    ensures
        return_result(r) == response_spec(
            response_handle_spec(lookup(responses@, "200"@), *components),
        ),
        r is Ok ==> warnings_view(final(warnings)@) == warnings_view(old(warnings)@)
            + response_warnings(response_handle_spec(lookup(responses@, "200"@), *components)),
        starts_with(warnings_view(final(warnings)@), warnings_view(old(warnings)@)),
{
    let ghost w0 = warnings_view(warnings@);
    let handle = responses.get("200");
    let res = resolve(ResolveTarget::Response(handle), components);
    assert(warnings_view(warnings@).subrange(0, w0.len() as int) =~= w0);
    let found = match res {
        Err(e) => {
            return Err(e);
        },
        Ok(f) => f,
    };
    note_resolution(&found, warnings);
    assert(warnings_view(warnings@).subrange(0, w0.len() as int) =~= w0);
    let ghost w1 = warnings_view(warnings@);
    match found {
        Resolution::Found(Resolved::Response(resp)) => {
            if resp.content.len() == 0 {
                proof {
                    assert(warnings_view(warnings@) =~= w1 + Seq::<WarningView>::empty());
                }
                return Ok((owned("()"), Some(ResponseType::Unit)));
            }
            match resp.content.get("application/json") {
                Some(m) => {
                    proof {
                        assert(warnings_view(warnings@) =~= w1 + Seq::<WarningView>::empty());
                    }
                    match &m.schema {
                        None => Err(GenError::new(ErrorKind::MissingSchema, "response")),
                        Some(s) => json_response(s),
                    }
                },
                None => {
                    if resp.content.get("text/plain").is_some() {
                        proof {
                            assert(warnings_view(warnings@) =~= w1 + Seq::<WarningView>::empty());
                        }
                        Ok((owned("String"), Some(ResponseType::Text)))
                    } else {
                        if resp.content.get("application/octet-stream").is_none() {
                            let (first, _) = resp.content.entry(0);
                            warnings.push(
                                Warning { kind: WarningKind::UnknownResponseMime, detail: owned(first) },
                            );
                        }
                        proof {
                            assert(warnings_view(warnings@).subrange(0, w0.len() as int) =~= w0);
                        }
                        Ok((owned("bytes::Bytes"), None))
                    }
                },
            }
        },
        Resolution::Found(_) => Err(GenError::new(ErrorKind::UnexpectedEntity, "Response")),
        _ => {
            proof {
                assert(warnings_view(warnings@) =~= w1 + Seq::<WarningView>::empty());
            }
            Ok((owned("()"), Some(ResponseType::Unit)))
        },
    }
}

// ------------------------------------------------------------ function body

/// The named arguments that fill the placeholders, each bound to the
/// snake_case parameter of the same name.
pub open spec fn format_args_spec(args: Seq<Seq<char>>) -> Seq<char>
    decreases args.len(),
{
    if args.len() == 0 {
        Seq::empty()
    } else {
        format_args_spec(args.drop_last()) + args.last() + " = "@ + snake_case_of(args.last())
            + ", "@
    }
}

/// The path argument of the request: the template itself, or a `format!`
/// call that fills its placeholders.
pub open spec fn path_expr_spec(endpoint: Seq<char>, names: Seq<Seq<char>>) -> Seq<char> {
    if names.len() == 0 {
        "        \""@ + endpoint + "\""@
    } else {
        "        &format!(\""@ + endpoint + "\", "@ + format_args_spec(names) + ")"@
    }
}

/// Builds the path argument of the request from the placeholder names found
/// in the path template.
pub fn path_expression(endpoint: &str, names: &Vec<String>) -> (r: String)
    ensures
        r@ == path_expr_spec(endpoint@, strings_view(names@)),
{
    let ghost ns = strings_view(names@);
    let mut args = String::new();
    let mut i: usize = 0;
    proof {
        assert(ns.take(0) =~= Seq::<Seq<char>>::empty());
    }
    while i < names.len()
        invariant
            ns == strings_view(names@),
            i <= names@.len(),
            format_args_spec(ns.take(i as int)) == args@,
        decreases names.len() - i,
    {
        proof {
            assert(ns.take(i + 1).drop_last() =~= ns.take(i as int));
            assert(ns.take(i + 1).last() == names@[i as int]@);
        }
        let name = &names[i];
        let snake = to_snake_case(name.as_str());
        let ghost prev = args@;
        args.append(name.as_str());
        args.append(" = ");
        args.append(snake.as_str());
        args.append(", ");
        proof {
            assert(args@ =~= prev + name@ + " = "@ + snake_case_of(name@) + ", "@);
        }
        i = i + 1;
    }
    proof {
        assert(ns.take(i as int) =~= ns);
    }
    let mut out = String::new();
    if i == 0 {
        out.append("        \"");
        out.append(endpoint);
        out.append("\"");
    } else {
        out.append("        &format!(\"");
        out.append(endpoint);
        out.append("\", ");
        out.append(args.as_str());
        out.append(")");
    }
    out
}

/// The value a query parameter is sent as: timestamps as their text, maps
/// as JSON text, anything else as it is.
pub open spec fn query_value_spec(pname: Seq<char>, p: Parameter) -> Result<Seq<char>, ErrorView> {
    match p.value {
        ParameterValue::Schema(s) => match map_type_spec(
            opt_view(s.format),
            s.instance_type,
            opt_view(s.reference),
            true,
        ) {
            None => Err((ErrorKind::UnmappableType, p.name@)),
            Some(t) => Ok(
                if t == "fiberplane_models::timestamps::Timestamp"@ {
                    pname + ".to_string()"@
                } else if t == "std::collections::HashMap<String, String>"@ {
                    "serde_json::to_string(&"@ + pname + ")?"@
                } else {
                    pname
                },
            ),
        },
        ParameterValue::Content => Ok(pname),
    }
}

/// The statements that attach a query parameter, guarded by a presence
/// check when it is optional.
pub open spec fn query_block_spec(p: Parameter) -> Result<Seq<char>, ErrorView> {
    let pname = snake_case_of(p.name@);
    match query_value_spec(pname, p) {
        Err(e) => Err(e),
        Ok(v) => {
            let set = "        builder = builder.query(&[(\""@ + p.name@ + "\", "@ + v + ")]);\n"@;
            Ok(
                if p.required {
                    set
                } else {
                    "    if let Some("@ + pname + ") = "@ + pname + " {\n"@ + set + "    }\n"@
                },
            )
        },
    }
}

/// The query statements for a resolved parameter handle: only parameters in
/// the query get one.
pub open spec fn query_spec(o: Result<ResolutionView, ErrorView>) -> Result<Seq<char>, ErrorView> {
    match o {
        Err(e) => Err(e),
        Ok(ResolutionView::Found(Entity::Parameter(p))) => if p.location@ == "query"@ {
            query_block_spec(p)
        } else {
            Ok(Seq::empty())
        },
        Ok(_) => Ok(Seq::empty()),
    }
}

/// A parameter neither in the path nor in the query is reported.
pub open spec fn query_warnings(o: Result<ResolutionView, ErrorView>) -> Seq<WarningView> {
    resolution_warnings(o) + match o {
        Ok(ResolutionView::Found(Entity::Parameter(p))) => if p.location@ != "path"@
            && p.location@ != "query"@ {
            seq![(WarningKind::UnknownParameterLocation, p.location@)]
        } else {
            Seq::empty()
        },
        _ => Seq::empty(),
    }
}

/// The query statements of a list of parameter handles, in order.
pub open spec fn queries_spec(c: Components, hs: Seq<RefOr<Parameter>>) -> Result<Seq<char>, ErrorView>
    decreases hs.len(),
{
    if hs.len() == 0 {
        Ok(Seq::empty())
    } else {
        match queries_spec(c, hs.drop_last()) {
            Err(e) => Err(e),
            Ok(prev) => match query_spec(parameter_handle_spec(hs.last(), c)) {
                Err(e) => Err(e),
                Ok(q) => Ok(prev + q),
            },
        }
    }
}

/// The warnings of the query statements of a list of parameter handles.
pub open spec fn queries_warnings(c: Components, hs: Seq<RefOr<Parameter>>) -> Seq<WarningView>
    decreases hs.len(),
{
    if hs.len() == 0 {
        Seq::empty()
    } else {
        queries_warnings(c, hs.drop_last()) + query_warnings(parameter_handle_spec(hs.last(), c))
    }
}

pub proof fn lemma_queries_error_prefix(c: Components, hs: Seq<RefOr<Parameter>>, k: int)
    requires
        0 <= k <= hs.len(),
        queries_spec(c, hs.take(k)) is Err,
    ensures
        queries_spec(c, hs) == queries_spec(c, hs.take(k)),
    decreases hs.len(),
{
    if k < hs.len() {
        assert(hs.drop_last().take(k) =~= hs.take(k));
        lemma_queries_error_prefix(c, hs.drop_last(), k);
    } else {
        assert(hs.take(k) =~= hs);
    }
}

fn query_block(p: &Parameter) -> (r: Result<String, GenError>)
    ensures
        text_result(r) == query_block_spec(*p),
{
    let pname = to_snake_case(p.name.as_str());
    let value = match &p.value {
        ParameterValue::Schema(s) => match map_type(&s.format, &s.instance_type, &s.reference, true) {
            None => {
                return Err(GenError::new(ErrorKind::UnmappableType, p.name.as_str()));
            },
            Some(t) => {
                if str_eq(t.as_str(), "fiberplane_models::timestamps::Timestamp") {
                    let mut v = pname.clone();
                    v.append(".to_string()");
                    v
                } else if str_eq(t.as_str(), "std::collections::HashMap<String, String>") {
                    let mut v = owned("serde_json::to_string(&");
                    v.append(pname.as_str());
                    v.append(")?");
                    v
                } else {
                    pname.clone()
                }
            },
        },
        ParameterValue::Content => pname.clone(),
    };
    assert(query_value_spec(pname@, *p) == Ok::<Seq<char>, ErrorView>(value@));
    let mut out = String::new();
    if !p.required {
        out.append("    if let Some(");
        out.append(pname.as_str());
        out.append(") = ");
        out.append(pname.as_str());
        out.append(" {\n");
    }
    out.append("        builder = builder.query(&[(\"");
    out.append(p.name.as_str());
    out.append("\", ");
    out.append(value.as_str());
    out.append(")]);\n");
    if !p.required {
        out.append("    }\n");
    }
    proof {
        let set = "        builder = builder.query(&[(\""@ + p.name@ + "\", "@ + value@ + ")]);\n"@;
        if p.required {
            assert(out@ =~= set);
        } else {
            assert(out@ =~= "    if let Some("@ + pname@ + ") = "@ + pname@ + " {\n"@ + set
                + "    }\n"@);
        }
    }
    Ok(out)
}

/// The statements that attach each query parameter of an operation.
pub fn generate_queries(
    list: &Vec<RefOr<Parameter>>,
    components: &Components,
    warnings: &mut Vec<Warning>,
) -> (r: Result<String, GenError>)
    ensures
        text_result(r) == queries_spec(*components, list@),
        r is Ok ==> warnings_view(final(warnings)@) == warnings_view(old(warnings)@)
            + queries_warnings(*components, list@),
        starts_with(warnings_view(final(warnings)@), warnings_view(old(warnings)@)),
{
    let ghost hs = list@;
    let ghost c = *components;
    let mut out = String::new();
    let mut i: usize = 0;
    proof {
        assert(hs.take(0) =~= Seq::<RefOr<Parameter>>::empty());
        assert(warnings_view(warnings@) =~= warnings_view(old(warnings)@) + queries_warnings(
            c,
            hs.take(0),
        ));
    }
    while i < list.len()
        invariant
            hs == list@,
            c == *components,
            i <= hs.len(),
            queries_spec(c, hs.take(i as int)) == Ok::<Seq<char>, ErrorView>(out@),
            warnings_view(warnings@) == warnings_view(old(warnings)@) + queries_warnings(
                c,
                hs.take(i as int),
            ),
        decreases list.len() - i,
    {
        proof {
            assert(hs.take(i + 1).drop_last() =~= hs.take(i as int));
            assert(hs.take(i + 1).last() == hs[i as int]);
            assert(warnings_view(warnings@).subrange(0, warnings_view(old(warnings)@).len() as int)
                =~= warnings_view(old(warnings)@));
        }
        let res = resolve(ResolveTarget::Parameter(Some(&list[i])), components);
        let found = match res {
            Err(e) => {
                proof {
                    lemma_queries_error_prefix(c, hs, i + 1);
                }
                return Err(e);
            },
            Ok(f) => f,
        };
        note_resolution(&found, warnings);
        let ghost w1 = warnings_view(warnings@);
        let ghost o = parameter_handle_spec(hs[i as int], c);
        assert(w1 == warnings_view(old(warnings)@) + queries_warnings(c, hs.take(i as int))
            + resolution_warnings(o));
        let block = match found {
            Resolution::Found(Resolved::Parameter(p)) => {
                if str_eq(p.location.as_str(), "query") {
                    query_block(p)
                } else {
                    if !str_eq(p.location.as_str(), "path") {
                        warnings.push(
                            Warning {
                                kind: WarningKind::UnknownParameterLocation,
                                detail: p.location.clone(),
                            },
                        );
                    }
                    Ok(String::new())
                }
            },
            _ => Ok(String::new()),
        };
        proof {
            assert(warnings_view(warnings@).subrange(0, warnings_view(old(warnings)@).len() as int)
                =~= warnings_view(old(warnings)@));
        }
        match block {
            Err(e) => {
                proof {
                    lemma_queries_error_prefix(c, hs, i + 1);
                }
                return Err(e);
            },
            Ok(b) => {
                out.append(b.as_str());
            },
        }
        proof {
            let extra = match o {
                Ok(ResolutionView::Found(Entity::Parameter(p))) => if p.location@ != "path"@
                    && p.location@ != "query"@ {
                    seq![(WarningKind::UnknownParameterLocation, p.location@)]
                } else {
                    Seq::<WarningView>::empty()
                },
                _ => Seq::<WarningView>::empty(),
            };
            assert(warnings_view(warnings@) =~= w1 + extra);
            assert(query_warnings(o) == resolution_warnings(o) + extra);
            assert(warnings_view(warnings@) =~= warnings_view(old(warnings)@) + queries_warnings(
                c,
                hs.take(i + 1),
            ));
        }
        i = i + 1;
    }
    proof {
        assert(hs.take(i as int) =~= hs);
        assert(warnings_view(warnings@).subrange(0, warnings_view(old(warnings)@).len() as int)
            =~= warnings_view(old(warnings)@));
    }
    Ok(out)
}

/// The statement that attaches a request body, by its media type: JSON
/// first, then form data, then raw bytes.
pub open spec fn attach_text_spec(b: RequestBody) -> Seq<char> {
    if lookup(b.content@, "application/json"@) is Some {
        "    builder = builder.json(&payload);\n"@
    } else if lookup(b.content@, "multipart/form-data"@) is Some {
        "    builder = builder.form(&payload);\n"@
    } else if lookup(b.content@, "application/octet-stream"@) is Some {
        "    builder = builder.body(payload);\n"@
    } else {
        Seq::empty()
    }
}

/// The statement that attaches an operation's request body, if it has one
/// that resolves.
pub open spec fn attach_spec(h: Option<RefOr<RequestBody>>, c: Components) -> Result<Seq<char>, ErrorView> {
    if h is None {
        Ok(Seq::empty())
    } else {
        match request_body_handle_spec(h, c) {
            Err(e) => Err(e),
            Ok(ResolutionView::Found(Entity::RequestBody(b))) => Ok(attach_text_spec(b)),
            Ok(ResolutionView::Found(_)) => Err((ErrorKind::UnexpectedEntity, "RequestBody"@)),
            Ok(_) => Ok(Seq::empty()),
        }
    }
}

/// A request body that cannot be attached is reported.
pub open spec fn attach_warnings(h: Option<RefOr<RequestBody>>, c: Components) -> Seq<WarningView> {
    if h is None {
        Seq::empty()
    } else {
        let o = request_body_handle_spec(h, c);
        resolution_warnings(o) + match o {
            Ok(ResolutionView::Found(Entity::RequestBody(b))) => if attach_text_spec(b).len() == 0 {
                seq![(WarningKind::UnsupportedBodyType, Seq::<char>::empty())]
            } else {
                Seq::empty()
            },
            _ => Seq::empty(),
        }
    }
}

fn attach_text(b: &RequestBody) -> (r: String)
    ensures
        r@ == attach_text_spec(*b),
{
    if b.content.get("application/json").is_some() {
        owned("    builder = builder.json(&payload);\n")
    } else if b.content.get("multipart/form-data").is_some() {
        owned("    builder = builder.form(&payload);\n")
    } else if b.content.get("application/octet-stream").is_some() {
        owned("    builder = builder.body(payload);\n")
    } else {
        String::new()
    }
}

/// The statement that attaches the request body of an operation.
pub fn generate_attach(
    request_body: &Option<RefOr<RequestBody>>,
    components: &Components,
    warnings: &mut Vec<Warning>,
) -> (r: Result<String, GenError>)
    ensures
        text_result(r) == attach_spec(*request_body, *components),
        r is Ok ==> warnings_view(final(warnings)@) == warnings_view(old(warnings)@)
            + attach_warnings(*request_body, *components),
        starts_with(warnings_view(final(warnings)@), warnings_view(old(warnings)@)),
{
    let ghost w0 = warnings_view(warnings@);
    if request_body.is_none() {
        assert(warnings_view(warnings@) =~= w0 + Seq::<WarningView>::empty());
        assert(warnings_view(warnings@).subrange(0, w0.len() as int) =~= w0);
        return Ok(String::new());
    }
    let res = resolve(ResolveTarget::RequestBody(request_body.as_ref()), components);
    assert(warnings_view(warnings@).subrange(0, w0.len() as int) =~= w0);
    let found = match res {
        Err(e) => {
            return Err(e);
        },
        Ok(f) => f,
    };
    note_resolution(&found, warnings);
    let ghost w1 = warnings_view(warnings@);
    let r = match found {
        Resolution::Found(Resolved::RequestBody(b)) => {
            let t = attach_text(b);
            if t.unicode_len() == 0 {
                warnings.push(
                    Warning { kind: WarningKind::UnsupportedBodyType, detail: String::new() },
                );
            }
            Ok(t)
        },
        Resolution::Found(_) => Err(GenError::new(ErrorKind::UnexpectedEntity, "RequestBody")),
        _ => Ok(String::new()),
    };
    proof {
        assert(warnings_view(warnings@) =~= w0 + attach_warnings(*request_body, *components));
        assert(warnings_view(warnings@).subrange(0, w0.len() as int) =~= w0);
    }
    r
}

/// The decoding statements for a response type; no type means raw bytes.
pub open spec fn decode_part_spec(rt: Option<ResponseType>) -> Seq<char> {
    match rt {
        Some(t) => response_part_spec(t),
        None => fallback_part_spec(),
    }
}

/// The body of a request function: build the request, attach query
/// parameters and body, send it, check the status, and decode the response.
pub open spec fn body_spec(
    endpoint: Seq<char>,
    method: Seq<char>,
    op: crate::document::Operation,
    c: Components,
    rt: Option<ResponseType>,
    names: Seq<Seq<char>>,
) -> Result<Seq<char>, ErrorView> {
    match queries_spec(c, op.parameters@) {
        Err(e) => Err(e),
        Ok(queries) => match attach_spec(op.request_body, c) {
            Err(e) => Err(e),
            Ok(attach) => Ok(
                "    let mut builder = client.request(\n"@ + "        Method::"@ + method + ",\n"@
                    + path_expr_spec(endpoint, names) + "\n    )?;\n"@ + queries + attach
                    + "    let response = builder.send()\n"@ + "        .await?\n"@
                    + "        .error_for_status()?"@ + decode_part_spec(rt),
            ),
        },
    }
}

/// The warnings of generating a function body.
pub open spec fn body_warnings(op: crate::document::Operation, c: Components) -> Seq<WarningView> {
    queries_warnings(c, op.parameters@) + attach_warnings(op.request_body, c)
}

/// Generates the body of the request function for one operation.
pub fn generate_function_body(
    endpoint: &str,
    method: &str,
    operation: &crate::document::Operation,
    components: &Components,
    response_type: Option<ResponseType>,
    warnings: &mut Vec<Warning>,
) -> (r: Result<String, GenError>)
    ensures
        text_result(r) == body_spec(
            endpoint@,
            method@,
            *operation,
            *components,
            response_type,
            placeholder_names_of(endpoint@),
        ),
        r is Ok ==> warnings_view(final(warnings)@) == warnings_view(old(warnings)@)
            + body_warnings(*operation, *components),
        starts_with(warnings_view(final(warnings)@), warnings_view(old(warnings)@)),
{
    let ghost w0 = warnings_view(warnings@);
    assert(warnings_view(warnings@).subrange(0, w0.len() as int) =~= w0);
    let names = match capture_placeholders(endpoint) {
        Ok(v) => v,
        Err(_) => {
            // The pattern is fixed and valid, so building it cannot fail.
            proof {
                assert(false);
            }
            Vec::new()
        },
    };
    assert(strings_view(names@) =~= placeholder_names_of(endpoint@));
    let path = path_expression(endpoint, &names);
    let queries = generate_queries(&operation.parameters, components, warnings)?;
    let ghost w1 = warnings_view(warnings@);
    let attach = match generate_attach(&operation.request_body, components, warnings) {
        Ok(a) => a,
        Err(e) => {
            proof {
                assert(warnings_view(warnings@).subrange(0, w1.len() as int) == w1);
                assert(warnings_view(warnings@).subrange(0, w0.len() as int) =~= w1.subrange(
                    0,
                    w0.len() as int,
                ));
            }
            return Err(e);
        },
    };
    let mut out = owned("    let mut builder = client.request(\n");
    out.append("        Method::");
    out.append(method);
    out.append(",\n");
    out.append(path.as_str());
    out.append("\n    )?;\n");
    out.append(queries.as_str());
    out.append(attach.as_str());
    out.append("    let response = builder.send()\n");
    out.append("        .await?\n");
    out.append("        .error_for_status()?");
    let part = match response_type {
        Some(t) => t.generate_response_part(),
        None => ResponseType::fallback_response_part(),
    };
    out.append(part);
    proof {
        assert(warnings_view(warnings@) =~= w0 + body_warnings(*operation, *components));
        assert(warnings_view(warnings@).subrange(0, w0.len() as int) =~= w0);
        assert(out@ =~= "    let mut builder = client.request(\n"@ + "        Method::"@ + method@
            + ",\n"@ + path@ + "\n    )?;\n"@ + queries@ + attach@
            + "    let response = builder.send()\n"@ + "        .await?\n"@
            + "        .error_for_status()?"@ + decode_part_spec(response_type));
    }
    Ok(out)
}

// -------------------------------------------------------------------- route

/// The doc attribute carrying an operation's description.
pub open spec fn doc_spec(description: Option<String>) -> Seq<char> {
    match description {
        Some(d) => "#[doc = r#\""@ + d@ + "\"#]\n"@,
        None => Seq::empty(),
    }
}

/// The request function for one operation: its parameters are the path's
/// shared ones, then the operation's own, then the payload; it returns the
/// type of the success response.
pub open spec fn route_spec(
    endpoint: Seq<char>,
    method: Seq<char>,
    op: crate::document::Operation,
    shared: Seq<RefOr<Parameter>>,
    c: Components,
    names: Seq<Seq<char>>,
) -> Result<Seq<char>, ErrorView> {
    match op.operation_id {
        None => Err((ErrorKind::MissingOperationId, method + " "@ + endpoint)),
        Some(id) => match parameters_spec(c, shared) {
            Err(e) => Err(e),
            Ok(shared_decls) => match parameters_spec(c, op.parameters@) {
                Err(e) => Err(e),
                Ok(own_decls) => match body_decl_spec(request_body_handle_spec(op.request_body, c)) {
                    Err(e) => Err(e),
                    Ok(payload) => match response_spec(
                        response_handle_spec(lookup(op.responses@, "200"@), c),
                    ) {
                        Err(e) => Err(e),
                        Ok(ret) => match body_spec(endpoint, method, op, c, ret.1, names) {
                            Err(e) => Err(e),
                            Ok(body) => Ok(
                                doc_spec(op.description) + "pub async fn "@ + id@ + "(\n"@
                                    + "    client: &ApiClient,\n"@ + shared_decls + own_decls
                                    + payload + ") -> Result<"@ + ret.0 + "> {\n"@ + body
                                    + "\n}\n\n"@,
                            ),
                        },
                    },
                },
            },
        },
    }
}

/// The warnings of generating the request function for one operation.
pub open spec fn route_warnings(
    op: crate::document::Operation,
    shared: Seq<RefOr<Parameter>>,
    c: Components,
) -> Seq<WarningView> {
    parameters_warnings(c, shared) + parameters_warnings(c, op.parameters@) + body_decl_warnings(
        request_body_handle_spec(op.request_body, c),
    ) + response_warnings(response_handle_spec(lookup(op.responses@, "200"@), c)) + body_warnings(
        op,
        c,
    )
}

proof fn lemma_starts_with_trans<T>(a: Seq<T>, b: Seq<T>, c: Seq<T>)
    requires
        starts_with(b, a),
        starts_with(c, b),
    ensures
        starts_with(c, a),
{
    assert(c.subrange(0, a.len() as int) =~= b.subrange(0, a.len() as int));
}

/// Generates the request function for one operation of path `endpoint`.
pub fn generate_route(
    endpoint: &str,
    method: &str,
    operation: &crate::document::Operation,
    shared_parameters: &Vec<RefOr<Parameter>>,
    components: &Components,
    warnings: &mut Vec<Warning>,
) -> (r: Result<String, GenError>)
    ensures
        text_result(r) == route_spec(
            endpoint@,
            method@,
            *operation,
            shared_parameters@,
            *components,
            placeholder_names_of(endpoint@),
        ),
        r is Ok ==> warnings_view(final(warnings)@) == warnings_view(old(warnings)@)
            + route_warnings(*operation, shared_parameters@, *components),
        starts_with(warnings_view(final(warnings)@), warnings_view(old(warnings)@)),
{
    let ghost w0 = warnings_view(warnings@);
    assert(warnings_view(warnings@).subrange(0, w0.len() as int) =~= w0);
    let id = match &operation.operation_id {
        Some(id) => id,
        None => {
            let mut detail = owned(method);
            detail.append(" ");
            detail.append(endpoint);
            return Err(GenError { kind: ErrorKind::MissingOperationId, detail });
        },
    };
    let shared = generate_parameters(shared_parameters, components, warnings)?;
    let ghost w1 = warnings_view(warnings@);
    let own = match generate_parameters(&operation.parameters, components, warnings) {
        Ok(x) => x,
        Err(e) => {
            proof {
                lemma_starts_with_trans(w0, w1, warnings_view(warnings@));
            }
            return Err(e);
        },
    };
    let ghost w2 = warnings_view(warnings@);
    proof {
        lemma_starts_with_trans(w0, w1, w2);
    }
    let payload = match generate_body_declaration(&operation.request_body, components, warnings) {
        Ok(x) => x,
        Err(e) => {
            proof {
                lemma_starts_with_trans(w0, w2, warnings_view(warnings@));
            }
            return Err(e);
        },
    };
    let ghost w3 = warnings_view(warnings@);
    proof {
        lemma_starts_with_trans(w0, w2, w3);
    }
    let (ret, response_type) = match generate_return_type(&operation.responses, components, warnings) {
        Ok(x) => x,
        Err(e) => {
            proof {
                lemma_starts_with_trans(w0, w3, warnings_view(warnings@));
            }
            return Err(e);
        },
    };
    let ghost w4 = warnings_view(warnings@);
    proof {
        lemma_starts_with_trans(w0, w3, w4);
    }
    let body = match generate_function_body(
        endpoint,
        method,
        operation,
        components,
        response_type,
        warnings,
    ) {
        Ok(x) => x,
        Err(e) => {
            proof {
                lemma_starts_with_trans(w0, w4, warnings_view(warnings@));
            }
            return Err(e);
        },
    };
    let mut out = String::new();
    if let Some(description) = &operation.description {
        out.append("#[doc = r#\"");
        out.append(description.as_str());
        out.append("\"#]\n");
    }
    out.append("pub async fn ");
    out.append(id.as_str());
    out.append("(\n");
    out.append("    client: &ApiClient,\n");
    out.append(shared.as_str());
    out.append(own.as_str());
    out.append(payload.as_str());
    out.append(") -> Result<");
    out.append(ret.as_str());
    out.append("> {\n");
    out.append(body.as_str());
    out.append("\n}\n\n");
    proof {
        lemma_starts_with_trans(w0, w4, warnings_view(warnings@));
        assert(warnings_view(warnings@) =~= w0 + route_warnings(
            *operation,
            shared_parameters@,
            *components,
        ));
        assert(out@ =~= doc_spec(operation.description) + "pub async fn "@ + id@ + "(\n"@
            + "    client: &ApiClient,\n"@ + shared@ + own@ + payload@ + ") -> Result<"@ + ret@
            + "> {\n"@ + body@ + "\n}\n\n"@);
    }
    Ok(out)
}

// ------------------------------------------------------------------- routes

/// Text results joined in order; the first error wins.
pub open spec fn then_spec(a: Result<Seq<char>, ErrorView>, b: Result<Seq<char>, ErrorView>) -> Result<
    Seq<char>,
    ErrorView,
> {
    match a {
        Err(e) => Err(e),
        Ok(x) => match b {
            Err(e) => Err(e),
            Ok(y) => Ok(x + y),
        },
    }
}

/// The request function for a method of a path, if the path has it.
#[verifier::opaque]
pub open spec fn method_spec(
    endpoint: Seq<char>,
    method: Seq<char>,
    op: Option<crate::document::Operation>,
    shared: Seq<RefOr<Parameter>>,
    c: Components,
) -> Result<Seq<char>, ErrorView> {
    match op {
        None => Ok(Seq::empty()),
        Some(o) => route_spec(endpoint, method, o, shared, c, placeholder_names_of(endpoint)),
    }
}

/// The warnings of the request function for a method of a path.
pub open spec fn method_warnings(
    op: Option<crate::document::Operation>,
    shared: Seq<RefOr<Parameter>>,
    c: Components,
) -> Seq<WarningView> {
    match op {
        None => Seq::empty(),
        Some(o) => route_warnings(o, shared, c),
    }
}

/// The request functions of a path, in the order GET, PUT, POST, DELETE,
/// PATCH, followed by a blank line.
pub open spec fn path_item_spec(endpoint: Seq<char>, item: crate::document::PathItem, c: Components) -> Result<
    Seq<char>,
    ErrorView,
> {
    let sh = item.parameters@;
    then_spec(
        then_spec(
            then_spec(
                then_spec(
                    then_spec(
                        method_spec(endpoint, "GET"@, item.get, sh, c),
                        method_spec(endpoint, "PUT"@, item.put, sh, c),
                    ),
                    method_spec(endpoint, "POST"@, item.post, sh, c),
                ),
                method_spec(endpoint, "DELETE"@, item.delete, sh, c),
            ),
            method_spec(endpoint, "PATCH"@, item.patch, sh, c),
        ),
        Ok("\n"@),
    )
}

/// The warnings of the request functions of a path.
pub open spec fn path_item_warnings(item: crate::document::PathItem, c: Components) -> Seq<WarningView> {
    let sh = item.parameters@;
    method_warnings(item.get, sh, c) + method_warnings(item.put, sh, c) + method_warnings(
        item.post,
        sh,
        c,
    ) + method_warnings(item.delete, sh, c) + method_warnings(item.patch, sh, c)
}

/// The request functions of all paths, in order.
pub open spec fn paths_spec(paths: Seq<(Seq<char>, crate::document::PathItem)>, c: Components) -> Result<
    Seq<char>,
    ErrorView,
>
    decreases paths.len(),
{
    if paths.len() == 0 {
        Ok(Seq::empty())
    } else {
        then_spec(paths_spec(paths.drop_last(), c), path_item_spec(paths.last().0, paths.last().1, c))
    }
}

/// The warnings of the request functions of all paths.
pub open spec fn paths_warnings(paths: Seq<(Seq<char>, crate::document::PathItem)>, c: Components) -> Seq<
    WarningView,
>
    decreases paths.len(),
{
    if paths.len() == 0 {
        Seq::empty()
    } else {
        paths_warnings(paths.drop_last(), c) + path_item_warnings(paths.last().1, c)
    }
}

/// The re-exports of the record types inside the generated `models` module.
pub open spec fn model_uses_spec(models: Seq<Seq<char>>) -> Seq<char>
    decreases models.len(),
{
    if models.len() == 0 {
        Seq::empty()
    } else {
        model_uses_spec(models.drop_last()) + "    pub(crate) use "@ + models.last() + ";\n"@
    }
}

/// The opening of the generated library root, up to the first function.
pub open spec fn routes_header_spec(models: Seq<Seq<char>>) -> Seq<char> {
    "#![forbid(unsafe_code)]\n#![allow(unused_mut)]\n#![allow(unused_variables)]\n#![allow(unused_imports)]\n\n"@
        + "use anyhow::{Context as _, Result};\nuse crate::clients::ApiClient;\nuse reqwest::Method;\n"@
        + "pub mod builder;\npub mod clients;\n\n"@ + "pub(crate) mod models {\n"@ + model_uses_spec(
        models,
    ) + "}\n\n"@
}

/// The generated library root: the header, then every request function.
pub open spec fn routes_spec(
    paths: Seq<(Seq<char>, crate::document::PathItem)>,
    c: Components,
    models: Seq<Seq<char>>,
) -> Result<Seq<char>, ErrorView> {
    then_spec(Ok(routes_header_spec(models)), paths_spec(paths, c))
}

pub proof fn lemma_paths_error_prefix(paths: Seq<(Seq<char>, crate::document::PathItem)>, c: Components, k: int)
    requires
        0 <= k <= paths.len(),
        paths_spec(paths.take(k), c) is Err,
    ensures
        paths_spec(paths, c) == paths_spec(paths.take(k), c),
    decreases paths.len(),
{
    if k < paths.len() {
        assert(paths.drop_last().take(k) =~= paths.take(k));
        lemma_paths_error_prefix(paths.drop_last(), c, k);
    } else {
        assert(paths.take(k) =~= paths);
    }
}

fn generate_method(
    endpoint: &str,
    method: &str,
    op: &Option<crate::document::Operation>,
    shared: &Vec<RefOr<Parameter>>,
    components: &Components,
    warnings: &mut Vec<Warning>,
) -> (r: Result<String, GenError>)
    ensures
        text_result(r) == method_spec(endpoint@, method@, *op, shared@, *components),
        r is Ok ==> warnings_view(final(warnings)@) == warnings_view(old(warnings)@)
            + method_warnings(*op, shared@, *components),
        starts_with(warnings_view(final(warnings)@), warnings_view(old(warnings)@)),
{
    reveal(method_spec);
    match op {
        None => {
            assert(warnings_view(warnings@) =~= warnings_view(old(warnings)@) + Seq::<
                WarningView,
            >::empty());
            assert(warnings_view(warnings@).subrange(0, warnings_view(warnings@).len() as int)
                =~= warnings_view(warnings@));
            Ok(String::new())
        },
        Some(o) => generate_route(endpoint, method, o, shared, components, warnings),
    }
}

fn generate_path_item(
    endpoint: &str,
    item: &crate::document::PathItem,
    components: &Components,
    warnings: &mut Vec<Warning>,
) -> (r: Result<String, GenError>)
    ensures
        text_result(r) == path_item_spec(endpoint@, *item, *components),
        r is Ok ==> warnings_view(final(warnings)@) == warnings_view(old(warnings)@)
            + path_item_warnings(*item, *components),
        starts_with(warnings_view(final(warnings)@), warnings_view(old(warnings)@)),
{
    let ghost w0 = warnings_view(warnings@);
    let sh = &item.parameters;
    let get = generate_method(endpoint, "GET", &item.get, sh, components, warnings)?;
    let ghost w1 = warnings_view(warnings@);
    let put = match generate_method(endpoint, "PUT", &item.put, sh, components, warnings) {
        Ok(x) => x,
        Err(e) => {
            proof {
                lemma_starts_with_trans(w0, w1, warnings_view(warnings@));
            }
            return Err(e);
        },
    };
    let ghost w2 = warnings_view(warnings@);
    proof {
        lemma_starts_with_trans(w0, w1, w2);
    }
    let post = match generate_method(endpoint, "POST", &item.post, sh, components, warnings) {
        Ok(x) => x,
        Err(e) => {
            proof {
                lemma_starts_with_trans(w0, w2, warnings_view(warnings@));
            }
            return Err(e);
        },
    };
    let ghost w3 = warnings_view(warnings@);
    proof {
        lemma_starts_with_trans(w0, w2, w3);
    }
    let delete = match generate_method(endpoint, "DELETE", &item.delete, sh, components, warnings) {
        Ok(x) => x,
        Err(e) => {
            proof {
                lemma_starts_with_trans(w0, w3, warnings_view(warnings@));
            }
            return Err(e);
        },
    };
    let ghost w4 = warnings_view(warnings@);
    proof {
        lemma_starts_with_trans(w0, w3, w4);
    }
    let patch = match generate_method(endpoint, "PATCH", &item.patch, sh, components, warnings) {
        Ok(x) => x,
        Err(e) => {
            proof {
                lemma_starts_with_trans(w0, w4, warnings_view(warnings@));
            }
            return Err(e);
        },
    };
    proof {
        lemma_starts_with_trans(w0, w4, warnings_view(warnings@));
    }
    let mut out = get;
    out.append(put.as_str());
    out.append(post.as_str());
    out.append(delete.as_str());
    out.append(patch.as_str());
    out.append("\n");
    proof {
        assert(warnings_view(warnings@) =~= w0 + path_item_warnings(*item, *components));
        assert(out@ =~= get@ + put@ + post@ + delete@ + patch@ + "\n"@);
    }
    Ok(out)
}

fn generate_paths(
    paths: &crate::document::NamedMap<crate::document::PathItem>,
    components: &Components,
    warnings: &mut Vec<Warning>,
) -> (r: Result<String, GenError>)
    ensures
        text_result(r) == paths_spec(paths@, *components),
        r is Ok ==> warnings_view(final(warnings)@) == warnings_view(old(warnings)@)
            + paths_warnings(paths@, *components),
        starts_with(warnings_view(final(warnings)@), warnings_view(old(warnings)@)),
{
    let ghost ps = paths@;
    let ghost c = *components;
    let ghost w0 = warnings_view(warnings@);
    let n = paths.len();
    let mut out = String::new();
    let mut i: usize = 0;
    proof {
        assert(ps.take(0) =~= Seq::<(Seq<char>, crate::document::PathItem)>::empty());
        assert(warnings_view(warnings@) =~= w0 + paths_warnings(ps.take(0), c));
        assert(warnings_view(warnings@).subrange(0, w0.len() as int) =~= w0);
    }
    while i < n
        invariant
            n == ps.len(),
            ps == paths@,
            c == *components,
            i <= n,
            w0 == warnings_view(old(warnings)@),
            paths_spec(ps.take(i as int), c) == Ok::<Seq<char>, ErrorView>(out@),
            warnings_view(warnings@) == w0 + paths_warnings(ps.take(i as int), c),
        decreases n - i,
    {
        proof {
            assert(ps.take(i + 1).drop_last() =~= ps.take(i as int));
            assert(ps.take(i + 1).last() == ps[i as int]);
            assert(warnings_view(warnings@).subrange(0, w0.len() as int) =~= w0);
        }
        let ghost w1 = warnings_view(warnings@);
        let (endpoint, item) = paths.entry(i);
        let part = match generate_path_item(endpoint, item, components, warnings) {
            Ok(x) => x,
            Err(e) => {
                proof {
                    lemma_starts_with_trans(w0, w1, warnings_view(warnings@));
                    lemma_paths_error_prefix(ps, c, i + 1);
                }
                return Err(e);
            },
        };
        out.append(part.as_str());
        proof {
            assert(warnings_view(warnings@) =~= w0 + paths_warnings(ps.take(i + 1), c));
        }
        i = i + 1;
    }
    proof {
        assert(ps.take(n as int) =~= ps);
        assert(warnings_view(warnings@).subrange(0, w0.len() as int) =~= w0);
    }
    Ok(out)
}

/// Generates the library root of the client: a fixed header, the re-exports
/// of `models`, and the request functions of every path in order.
pub fn generate_routes(
    paths: &crate::document::NamedMap<crate::document::PathItem>,
    components: &Components,
    models: &Vec<String>,
    warnings: &mut Vec<Warning>,
) -> (r: Result<String, GenError>)
    ensures
        text_result(r) == routes_spec(paths@, *components, strings_view(models@)),
        r is Ok ==> warnings_view(final(warnings)@) == warnings_view(old(warnings)@)
            + paths_warnings(paths@, *components),
        starts_with(warnings_view(final(warnings)@), warnings_view(old(warnings)@)),
{
    let ghost mv = strings_view(models@);
    let mut out = owned(
        "#![forbid(unsafe_code)]\n#![allow(unused_mut)]\n#![allow(unused_variables)]\n#![allow(unused_imports)]\n\n",
    );
    out.append("use anyhow::{Context as _, Result};\nuse crate::clients::ApiClient;\nuse reqwest::Method;\n");
    out.append("pub mod builder;\npub mod clients;\n\n");
    out.append("pub(crate) mod models {\n");
    let ghost start = out@;
    let mut k: usize = 0;
    proof {
        assert(mv.take(0) =~= Seq::<Seq<char>>::empty());
        assert(out@ =~= start + model_uses_spec(mv.take(0)));
    }
    while k < models.len()
        invariant
            mv == strings_view(models@),
            k <= models@.len(),
            out@ == start + model_uses_spec(mv.take(k as int)),
        decreases models.len() - k,
    {
        proof {
            assert(mv.take(k + 1).drop_last() =~= mv.take(k as int));
            assert(mv.take(k + 1).last() == models@[k as int]@);
        }
        out.append("    pub(crate) use ");
        out.append(models[k].as_str());
        out.append(";\n");
        proof {
            assert(out@ =~= start + model_uses_spec(mv.take(k + 1)));
        }
        k = k + 1;
    }
    proof {
        assert(mv.take(k as int) =~= mv);
    }
    out.append("}\n\n");
    assert(out@ =~= routes_header_spec(mv));
    let functions = generate_paths(paths, components, warnings)?;
    out.append(functions.as_str());
    Ok(out)
}

/// Determinism: the outcome of generation is a function of the document
/// alone, so two generations from the same document give the same result,
/// to the byte on success and the same error on failure, for the request
/// functions and for the records alike.
pub proof fn lemma_generation_deterministic(
    paths: Seq<(Seq<char>, crate::document::PathItem)>,
    c: Components,
    models: Seq<Seq<char>>,
    first: Result<Seq<char>, ErrorView>,
    second: Result<Seq<char>, ErrorView>,
    first_records: Result<(Seq<(Seq<char>, Seq<char>)>, Seq<char>), ErrorView>,
    second_records: Result<(Seq<(Seq<char>, Seq<char>)>, Seq<char>), ErrorView>,
)
    requires
        first == routes_spec(paths, c, models),
        second == routes_spec(paths, c, models),
        first_records == crate::models::models_spec(c.schemas@),
        second_records == crate::models::models_spec(c.schemas@),
    ensures
        first == second,
        first_records == second_records,
{
}

} // verus!
