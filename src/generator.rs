//! A whole generation pass over a document: transport scaffolding, records
//! and request functions, in that fixed order.
use vstd::prelude::*;
use crate::client_config::{
    client_methods_spec, generate_client_configs, ClientFiles, BUILDER_SOURCE, CLIENTS_HEADER,
    CLIENT_TYPE, CONFIG_METHOD,
};
use crate::diagnostics::{starts_with, warnings_view, ErrorView, GenError, Warning};
use crate::document::Document;
use crate::models::{files_view, generate_models, models_spec, models_warnings, strings_view, GeneratedModels};
use crate::routes::{generate_routes, paths_warnings, routes_spec};

verus! {

/// The text of every generated source file.
pub struct GeneratedSources {
    /// The clients and builder files.
    pub clients: ClientFiles,
    /// The record files, when the document has a component registry.
    pub models: Option<GeneratedModels>,
    /// The library root with the request functions, when the document has a
    /// component registry.
    pub lib_rs: Option<String>,
}

/// Whether `e` is the error a generation pass over `doc` stops with: the
/// first failing step decides.
pub open spec fn sources_error(doc: Document, models: Seq<Seq<char>>, e: ErrorView) -> bool {
    match client_methods_spec(doc.servers@) {
        Err(x) => x == e,
        Ok(_) => match doc.components {
            None => false,
            Some(c) => match models_spec(c.schemas@) {
                Err(x) => x == e,
                Ok(_) => routes_spec(doc.paths@, c, models) == Err::<Seq<char>, ErrorView>(e),
            },
        },
    }
}

/// Generates every source file of the client for `document`; `models` are
/// the paths the generated `models` module re-exports.
pub fn generate_sources(document: &Document, models: &Vec<String>, warnings: &mut Vec<Warning>) -> (r: Result<
    GeneratedSources,
    GenError,
>)
    ensures
        r matches Ok(g) ==> {
            &&& client_methods_spec(document.servers@) matches Ok(methods)
            &&& g.clients.clients@ == CLIENTS_HEADER@ + CONFIG_METHOD@ + methods + CLIENT_TYPE@
            &&& g.clients.builder@ == BUILDER_SOURCE@
            &&& match document.components {
                None => g.models is None && g.lib_rs is None && warnings_view(final(warnings)@)
                    == warnings_view(old(warnings)@),
                Some(c) => g.models matches Some(m) && g.lib_rs matches Some(lib) && models_spec(
                    c.schemas@,
                ) == Ok::<(Seq<(Seq<char>, Seq<char>)>, Seq<char>), ErrorView>(
                    (files_view(m.files@), m.mod_rs@),
                ) && routes_spec(document.paths@, c, strings_view(models@)) == Ok::<
                    Seq<char>,
                    ErrorView,
                >(lib@) && warnings_view(final(warnings)@) == warnings_view(old(warnings)@)
                    + models_warnings(c.schemas@) + paths_warnings(document.paths@, c),
            }
        },
        r matches Err(e) ==> sources_error(*document, strings_view(models@), e@),
        starts_with(warnings_view(final(warnings)@), warnings_view(old(warnings)@)),
{
    let ghost w0 = warnings_view(warnings@);
    assert(warnings_view(warnings@).subrange(0, w0.len() as int) =~= w0);
    let clients = generate_client_configs(&document.servers)?;
    match &document.components {
        None => Ok(GeneratedSources { clients, models: None, lib_rs: None }),
        Some(components) => {
            let generated_models = match generate_models(components, warnings) {
                Ok(m) => m,
                Err(e) => {
                    proof {
                        assert(warnings_view(warnings@).subrange(0, w0.len() as int) =~= w0);
                    }
                    return Err(e);
                },
            };
            let ghost w1 = warnings_view(warnings@);
            proof {
                assert(w1.subrange(0, w0.len() as int) =~= w0);
            }
            let lib_rs = match generate_routes(&document.paths, components, models, warnings) {
                Ok(l) => l,
                Err(e) => {
                    proof {
                        assert(warnings_view(warnings@).subrange(0, w0.len() as int)
                            =~= warnings_view(warnings@).subrange(0, w1.len() as int).subrange(
                            0,
                            w0.len() as int,
                        ));
                    }
                    return Err(e);
                },
            };
            proof {
                assert(warnings_view(warnings@) =~= warnings_view(old(warnings)@) + models_warnings(
                    components.schemas@,
                ) + paths_warnings(document.paths@, *components));
            }
            Ok(GeneratedSources { clients, models: Some(generated_models), lib_rs: Some(lib_rs) })
        },
    }
}

} // verus!
