//! Following pointers through the component registry.
//!
//! A pointer `#/components/<category>/<name>` is split on `/`; its third and
//! fourth pieces name the category and the entry. An entry may itself be a
//! pointer (a schema whose `reference` is set, or a pointer entry of another
//! category), which is followed in turn. A chain can visit each such entry at most once unless it
//! loops, so a chain longer than the registry is reported as a cycle.
use vstd::prelude::*;
use crate::diagnostics::{ErrorKind, GenError};
use crate::document::{lookup, Components, Parameter, RefOr, RequestBody, Response, Schema};
use crate::text::{segments, split_on, str_eq};

verus! {

/// A concrete registry entry or inline definition, of any category.
pub enum Entity {
    Schema(Schema),
    Parameter(Parameter),
    Response(Response),
    RequestBody(RequestBody),
}

/// A concrete entity found by resolution, borrowed from the registry or from
/// the inline definition that was resolved.
pub enum Resolved<'a> {
    Schema(&'a Schema),
    Parameter(&'a Parameter),
    Response(&'a Response),
    RequestBody(&'a RequestBody),
}

impl<'a> View for Resolved<'a> {
    type V = Entity;

    open spec fn view(&self) -> Entity {
        match *self {
            Resolved::Schema(s) => Entity::Schema(*s),
            Resolved::Parameter(p) => Entity::Parameter(*p),
            Resolved::Response(r) => Entity::Response(*r),
            Resolved::RequestBody(b) => Entity::RequestBody(*b),
        }
    }
}

/// What resolving a handle gives when it does not fail.
pub enum Resolution<'a> {
    /// A concrete entity.
    Found(Resolved<'a>),
    /// No handle was given, or the registry has no entry of that name.
    Missing,
    /// The pointer names a category the registry does not have.
    UnknownCategory(String),
}

/// The mathematical value of a [`Resolution`].
pub enum ResolutionView {
    Found(Entity),
    Missing,
    UnknownCategory(Seq<char>),
}

impl<'a> View for Resolution<'a> {
    type V = ResolutionView;

    open spec fn view(&self) -> ResolutionView {
        match self {
            Resolution::Found(e) => ResolutionView::Found(e@),
            Resolution::Missing => ResolutionView::Missing,
            Resolution::UnknownCategory(c) => ResolutionView::UnknownCategory(c@),
        }
    }
}

/// The view of a resolution result.
pub open spec fn outcome_view<'a>(r: Result<Resolution<'a>, GenError>) -> Result<
    ResolutionView,
    (ErrorKind, Seq<char>),
> {
    match r {
        Ok(x) => Ok(x@),
        Err(e) => Err(e@),
    }
}

/// How many pointer entries the registry holds, plus one: the longest chain
/// that visits no entry twice. Saturates at the machine word.
pub open spec fn chain_limit(c: Components) -> nat {
    let n = c.schemas@.len() + c.parameters@.len() + c.responses@.len() + c.request_bodies@.len()
        + 1;
    if n <= usize::MAX {
        n as nat
    } else {
        usize::MAX as nat
    }
}

/// The request-body category is written `requestBodies` in the registry's
/// own naming, and also accepted in the singular.
pub open spec fn is_request_body_category(category: Seq<char>) -> bool {
    category == "requestBodies"@ || category == "requestBody"@
}

/// Resolution of pointer `r` with at most `fuel` pointers followed.
pub open spec fn resolve_pointer_spec(c: Components, r: Seq<char>, fuel: nat) -> Result<
    ResolutionView,
    (ErrorKind, Seq<char>),
>
    decreases fuel,
{
    let segs = segments(r, '/');
    if segs.len() < 3 {
        Err((ErrorKind::NoComponentName, r))
    } else if segs.len() < 4 {
        Err((ErrorKind::NoModelName, r))
    } else if fuel == 0 {
        Err((ErrorKind::ReferenceCycle, r))
    } else {
        let category = segs[2];
        let name = segs[3];
        if category == "schemas"@ {
            match lookup(c.schemas@, name) {
                None => Ok(ResolutionView::Missing),
                Some(s) => match s.reference {
                    None => Ok(ResolutionView::Found(Entity::Schema(s))),
                    Some(next) => resolve_pointer_spec(c, next@, (fuel - 1) as nat),
                },
            }
        } else if category == "parameters"@ {
            match lookup(c.parameters@, name) {
                None => Ok(ResolutionView::Missing),
                Some(RefOr::Object(p)) => Ok(ResolutionView::Found(Entity::Parameter(p))),
                Some(RefOr::Ref(next)) => resolve_pointer_spec(c, next@, (fuel - 1) as nat),
            }
        } else if category == "responses"@ {
            match lookup(c.responses@, name) {
                None => Ok(ResolutionView::Missing),
                Some(RefOr::Object(x)) => Ok(ResolutionView::Found(Entity::Response(x))),
                Some(RefOr::Ref(next)) => resolve_pointer_spec(c, next@, (fuel - 1) as nat),
            }
        } else if is_request_body_category(category) {
            match lookup(c.request_bodies@, name) {
                None => Ok(ResolutionView::Missing),
                Some(RefOr::Object(b)) => Ok(ResolutionView::Found(Entity::RequestBody(b))),
                Some(RefOr::Ref(next)) => resolve_pointer_spec(c, next@, (fuel - 1) as nat),
            }
        } else {
            Ok(ResolutionView::UnknownCategory(category))
        }
    }
}

/// Resolution of pointer `r` against registry `c`.
pub open spec fn resolves_to(c: Components, r: Seq<char>) -> Result<
    ResolutionView,
    (ErrorKind, Seq<char>),
> {
    resolve_pointer_spec(c, r, chain_limit(c))
}

/// A handle to resolve, tagged with the category it is expected to be.
pub enum ResolveTarget<'a> {
    Parameter(Option<&'a RefOr<Parameter>>),
    Response(Option<&'a RefOr<Response>>),
    RequestBody(Option<&'a RefOr<RequestBody>>),
}

/// Resolution of a handle: nothing for no handle, an inline definition as it
/// stands, a pointer through the registry.
pub open spec fn resolve_target_spec<'a>(t: ResolveTarget<'a>, c: Components) -> Result<
    ResolutionView,
    (ErrorKind, Seq<char>),
> {
    match t {
        ResolveTarget::Parameter(None) => Ok(ResolutionView::Missing),
        ResolveTarget::Parameter(Some(h)) => match *h {
            RefOr::Ref(r) => resolves_to(c, r@),
            RefOr::Object(p) => Ok(ResolutionView::Found(Entity::Parameter(p))),
        },
        ResolveTarget::Response(None) => Ok(ResolutionView::Missing),
        ResolveTarget::Response(Some(h)) => match *h {
            RefOr::Ref(r) => resolves_to(c, r@),
            RefOr::Object(x) => Ok(ResolutionView::Found(Entity::Response(x))),
        },
        ResolveTarget::RequestBody(None) => Ok(ResolutionView::Missing),
        ResolveTarget::RequestBody(Some(h)) => match *h {
            RefOr::Ref(r) => resolves_to(c, r@),
            RefOr::Object(b) => Ok(ResolutionView::Found(Entity::RequestBody(b))),
        },
    }
}

/// The exec counterpart of [`chain_limit`].
fn chain_limit_of(c: &Components) -> (r: usize)
    ensures
        r == chain_limit(*c),
{
    let a = c.parameters.len();
    let b = c.responses.len();
    let d = c.request_bodies.len();
    let e = c.schemas.len();
    if a <= usize::MAX - b && a + b <= usize::MAX - d && a + b + d <= usize::MAX - e && a + b + d
        + e < usize::MAX {
        a + b + d + e + 1
    } else {
        usize::MAX
    }
}

fn resolve_with_fuel<'a>(reference: &str, components: &'a Components, fuel: usize) -> (r: Result<
    Resolution<'a>,
    GenError,
>)
    ensures
        outcome_view(r) == resolve_pointer_spec(*components, reference@, fuel as nat),
    decreases fuel,
{
    let segs = split_on(reference, '/');
    if segs.len() < 3 {
        return Err(GenError::new(ErrorKind::NoComponentName, reference));
    }
    if segs.len() < 4 {
        return Err(GenError::new(ErrorKind::NoModelName, reference));
    }
    if fuel == 0 {
        return Err(GenError::new(ErrorKind::ReferenceCycle, reference));
    }
    let category = segs[2].as_str();
    let name = segs[3].as_str();
    assert(category@ == segments(reference@, '/')[2]);
    assert(name@ == segments(reference@, '/')[3]);
    if str_eq(category, "schemas") {
        match components.schemas.get(name) {
            None => Ok(Resolution::Missing),
            Some(s) => match &s.reference {
                None => Ok(Resolution::Found(Resolved::Schema(s))),
                Some(next) => resolve_with_fuel(next.as_str(), components, fuel - 1),
            },
        }
    } else if str_eq(category, "parameters") {
        match components.parameters.get(name) {
            None => Ok(Resolution::Missing),
            Some(RefOr::Object(p)) => Ok(Resolution::Found(Resolved::Parameter(p))),
            Some(RefOr::Ref(next)) => resolve_with_fuel(next.as_str(), components, fuel - 1),
        }
    } else if str_eq(category, "responses") {
        match components.responses.get(name) {
            None => Ok(Resolution::Missing),
            Some(RefOr::Object(x)) => Ok(Resolution::Found(Resolved::Response(x))),
            Some(RefOr::Ref(next)) => resolve_with_fuel(next.as_str(), components, fuel - 1),
        }
    } else if str_eq(category, "requestBodies") || str_eq(category, "requestBody") {
        match components.request_bodies.get(name) {
            None => Ok(Resolution::Missing),
            Some(RefOr::Object(b)) => Ok(Resolution::Found(Resolved::RequestBody(b))),
            Some(RefOr::Ref(next)) => resolve_with_fuel(next.as_str(), components, fuel - 1),
        }
    } else {
        Ok(Resolution::UnknownCategory(category.to_string()))
    }
}

/// Resolves a pointer against the registry, following chained pointers.
pub fn resolve_reference<'a>(reference: &str, components: &'a Components) -> (r: Result<
    Resolution<'a>,
    GenError,
>)
    ensures
        outcome_view(r) == resolves_to(*components, reference@),
{
    let limit = chain_limit_of(components);
    resolve_with_fuel(reference, components, limit)
}

/// Resolves a handle that may be absent, inline or a pointer.
pub fn resolve<'a>(input: ResolveTarget<'a>, components: &'a Components) -> (r: Result<
    Resolution<'a>,
    GenError,
>)
    ensures
        outcome_view(r) == resolve_target_spec(input, *components),
{
    match input {
        ResolveTarget::Parameter(None) => Ok(Resolution::Missing),
        ResolveTarget::Parameter(Some(RefOr::Ref(r))) => resolve_reference(r.as_str(), components),
        ResolveTarget::Parameter(Some(RefOr::Object(p))) => Ok(
            Resolution::Found(Resolved::Parameter(p)),
        ),
        ResolveTarget::Response(None) => Ok(Resolution::Missing),
        ResolveTarget::Response(Some(RefOr::Ref(r))) => resolve_reference(r.as_str(), components),
        ResolveTarget::Response(Some(RefOr::Object(x))) => Ok(
            Resolution::Found(Resolved::Response(x)),
        ),
        ResolveTarget::RequestBody(None) => Ok(Resolution::Missing),
        ResolveTarget::RequestBody(Some(RefOr::Ref(r))) => resolve_reference(
            r.as_str(),
            components,
        ),
        ResolveTarget::RequestBody(Some(RefOr::Object(b))) => Ok(
            Resolution::Found(Resolved::RequestBody(b)),
        ),
    }
}

/// Resolution of a parameter handle.
pub open spec fn parameter_handle_spec(h: RefOr<Parameter>, c: Components) -> Result<
    ResolutionView,
    (ErrorKind, Seq<char>),
> {
    match h {
        RefOr::Ref(r) => resolves_to(c, r@),
        RefOr::Object(p) => Ok(ResolutionView::Found(Entity::Parameter(p))),
    }
}

/// Resolution of an optional request-body handle.
pub open spec fn request_body_handle_spec(h: Option<RefOr<RequestBody>>, c: Components) -> Result<
    ResolutionView,
    (ErrorKind, Seq<char>),
> {
    match h {
        None => Ok(ResolutionView::Missing),
        Some(RefOr::Ref(r)) => resolves_to(c, r@),
        Some(RefOr::Object(b)) => Ok(ResolutionView::Found(Entity::RequestBody(b))),
    }
}

/// Resolution of an optional response handle.
pub open spec fn response_handle_spec(h: Option<RefOr<Response>>, c: Components) -> Result<
    ResolutionView,
    (ErrorKind, Seq<char>),
> {
    match h {
        None => Ok(ResolutionView::Missing),
        Some(RefOr::Ref(r)) => resolves_to(c, r@),
        Some(RefOr::Object(x)) => Ok(ResolutionView::Found(Entity::Response(x))),
    }
}

/// Whether resolution stopped because it ran out of steps.
pub open spec fn ends_in_cycle(o: Result<ResolutionView, (ErrorKind, Seq<char>)>) -> bool {
    o matches Err(e) && e.0 == ErrorKind::ReferenceCycle
}

/// The pointer held by the registry entry that pointer `r` names, when that
/// entry is itself a pointer.
pub open spec fn next_pointer(c: Components, r: Seq<char>) -> Option<Seq<char>> {
    let segs = segments(r, '/');
    if segs.len() < 4 {
        None
    } else {
        let category = segs[2];
        let name = segs[3];
        if category == "schemas"@ {
            match lookup(c.schemas@, name) {
                Some(s) => match s.reference {
                    Some(next) => Some(next@),
                    None => None,
                },
                None => None,
            }
        } else if category == "parameters"@ {
            match lookup(c.parameters@, name) {
                Some(RefOr::Ref(next)) => Some(next@),
                _ => None,
            }
        } else if category == "responses"@ {
            match lookup(c.responses@, name) {
                Some(RefOr::Ref(next)) => Some(next@),
                _ => None,
            }
        } else if is_request_body_category(category) {
            match lookup(c.request_bodies@, name) {
                Some(RefOr::Ref(next)) => Some(next@),
                _ => None,
            }
        } else {
            None
        }
    }
}

/// More steps do not change a resolution that did not run out of steps.
pub proof fn lemma_fuel_monotone(c: Components, r: Seq<char>, f1: nat, f2: nat)
    requires
        f1 <= f2,
        !ends_in_cycle(resolve_pointer_spec(c, r, f1)),
    ensures
        resolve_pointer_spec(c, r, f2) == resolve_pointer_spec(c, r, f1),
    decreases f1,
{
    let segs = segments(r, '/');
    if segs.len() >= 4 && f1 > 0 {
        match next_pointer(c, r) {
            Some(next) => {
                lemma_fuel_monotone(c, next, (f1 - 1) as nat, (f2 - 1) as nat);
            },
            None => {},
        }
    }
}

/// One link of a chain: a pointer to an entry that is itself a pointer
/// resolves as that entry does.
pub proof fn lemma_resolution_step(c: Components, r: Seq<char>, next: Seq<char>)
    requires
        next_pointer(c, r) == Some(next),
        !ends_in_cycle(resolves_to(c, r)),
    ensures
        resolves_to(c, r) == resolves_to(c, next),
        !ends_in_cycle(resolves_to(c, next)),
{
    let limit = chain_limit(c);
    assert(resolves_to(c, r) == resolve_pointer_spec(c, next, (limit - 1) as nat));
    lemma_fuel_monotone(c, next, (limit - 1) as nat, limit);
}

/// Transitive resolution: along a chain of pointers, each naming an entry
/// that holds the next, the first pointer resolves to the same entity as the
/// last one, unless the chain loops.
pub proof fn lemma_transitive_resolution(c: Components, chain: Seq<Seq<char>>)
    requires
        chain.len() >= 1,
        forall|i: int| 0 <= i < chain.len() - 1 ==> next_pointer(c, #[trigger] chain[i]) == Some(
            chain[i + 1],
        ),
        !ends_in_cycle(resolves_to(c, chain[0])),
    ensures
        resolves_to(c, chain[0]) == resolves_to(c, chain.last()),
    decreases chain.len(),
{
    if chain.len() > 1 {
        lemma_resolution_step(c, chain[0], chain[1]);
        let rest = chain.drop_first();
        assert forall|i: int| 0 <= i < rest.len() - 1 implies next_pointer(c, #[trigger] rest[i])
            == Some(rest[i + 1]) by {
            assert(rest[i] == chain[i + 1]);
        }
        lemma_transitive_resolution(c, rest);
    }
}

/// Whether handle `t` is an inline definition of entity `e`.
pub open spec fn holds_inline<'a>(t: ResolveTarget<'a>, e: Entity) -> bool {
    match (t, e) {
        (ResolveTarget::Parameter(Some(h)), Entity::Parameter(p)) => *h == RefOr::Object(p),
        (ResolveTarget::Response(Some(h)), Entity::Response(x)) => *h == RefOr::Object(x),
        (ResolveTarget::RequestBody(Some(h)), Entity::RequestBody(b)) => *h == RefOr::Object(b),
        _ => false,
    }
}

/// Resolution is idempotent: the entity a pointer resolves to, resolved once
/// more as an inline definition, comes back unchanged.
pub proof fn lemma_resolution_idempotent<'a>(c: Components, r: Seq<char>, again: ResolveTarget<'a>)
    requires
        resolves_to(c, r) matches Ok(ResolutionView::Found(e)) && holds_inline(again, e),
    ensures
        resolve_target_spec(again, c) == resolves_to(c, r),
{
}

} // verus!
