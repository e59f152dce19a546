//! The model synthesizer: one record definition per registry schema.
use vstd::prelude::*;
use vstd::string::StringExecFns;
use crate::diagnostics::{starts_with, text_result, warnings_view, ErrorKind, GenError, Warning, WarningKind};
use crate::document::{Components, Schema, SchemaNode};
use crate::naming::{
    is_keyword, is_keyword_of, pascal_case_of, snake_case_of, to_pascal_case,
    to_snake_case,
};
use crate::text::{opt_view, owned, str_eq};
use crate::types::{map_type, map_type_spec};

verus! {

/// The views of a list of strings.
pub open spec fn strings_view(v: Seq<String>) -> Seq<Seq<char>> {
    v.map_values(|s: String| s@)
}

/// The Rust identifier of a property: its snake_case form, with `_` appended
/// when that is a keyword.
pub open spec fn field_ident(name: Seq<char>) -> Seq<char> {
    let s = snake_case_of(name);
    if is_keyword_of(s) {
        s + "_"@
    } else {
        s
    }
}

/// A type as a field or parameter declares it: bare when required, else
/// wrapped in `Option`.
pub open spec fn wrap_optional(ty: Seq<char>, required: bool) -> Seq<char> {
    if required {
        ty
    } else {
        "Option<"@ + ty + ">"@
    }
}

/// The declaration of one record field, serialized under its wire name.
pub open spec fn field_text(name: Seq<char>, ty: Seq<char>, required: bool) -> Seq<char> {
    "    #[serde(rename = \""@ + name + "\")]\n"@ + "    pub "@ + field_ident(name) + ": "@
        + wrap_optional(ty, required) + ",\n"@
}

/// The field for property `name`, typed in the owned context.
pub open spec fn field_spec(name: Seq<char>, schema: Schema, required: Seq<Seq<char>>) -> Result<
    Seq<char>,
    (ErrorKind, Seq<char>),
> {
    match map_type_spec(
        opt_view(schema.format),
        schema.instance_type,
        opt_view(schema.reference),
        false,
    ) {
        Some(ty) => Ok(field_text(name, ty, required.contains(name))),
        None => Err((ErrorKind::UnmappableType, name)),
    }
}

/// The field for one property entry; a boolean schema has no field.
pub open spec fn property_spec(p: (Seq<char>, SchemaNode), required: Seq<Seq<char>>) -> Result<
    Seq<char>,
    (ErrorKind, Seq<char>),
> {
    match p.1 {
        SchemaNode::Bool(_) => Err((ErrorKind::UnsupportedBoolProperty, p.0)),
        SchemaNode::Object(s) => field_spec(p.0, s, required),
    }
}

/// The fields of all properties in order; the first failing one decides.
pub open spec fn fields_spec(props: Seq<(Seq<char>, SchemaNode)>, required: Seq<Seq<char>>) -> Result<
    Seq<char>,
    (ErrorKind, Seq<char>),
>
    decreases props.len(),
{
    if props.len() == 0 {
        Ok(Seq::empty())
    } else {
        match fields_spec(props.drop_last(), required) {
            Err(e) => Err(e),
            Ok(prefix) => match property_spec(props.last(), required) {
                Err(e) => Err(e),
                Ok(f) => Ok(prefix + f),
            },
        }
    }
}

/// Once a prefix of the properties fails, all of them fail the same way.
pub proof fn lemma_fields_error_prefix(
    props: Seq<(Seq<char>, SchemaNode)>,
    required: Seq<Seq<char>>,
    k: int,
)
    requires
        0 <= k <= props.len(),
        fields_spec(props.take(k), required) is Err,
    ensures
        fields_spec(props, required) == fields_spec(props.take(k), required),
    decreases props.len(),
{
    if k < props.len() {
        assert(props.drop_last().take(k) =~= props.take(k));
        lemma_fields_error_prefix(props.drop_last(), required, k);
    } else {
        assert(props.take(k) =~= props);
    }
}

/// The opening of a record definition file, up to the first field.
pub open spec fn model_header(name: Seq<char>) -> Seq<char> {
    "use serde::{Deserialize, Serialize};\nuse crate::models;\n\n"@
        + "#[derive(Clone, Debug, Serialize, Deserialize)]\n"@ + "pub struct "@ + pascal_case_of(
        name,
    ) + " {\n"@
}

/// The record definition file for schema `name`; a schema without an object
/// shape gives a record without fields.
pub open spec fn model_spec(name: Seq<char>, schema: Schema) -> Result<
    Seq<char>,
    (ErrorKind, Seq<char>),
> {
    match schema.object {
        None => Ok(model_header(name) + "}\n\n"@),
        Some(o) => match fields_spec(o.properties@, strings_view(o.required@)) {
            Err(e) => Err(e),
            Ok(fields) => Ok(model_header(name) + fields + "}\n\n"@),
        },
    }
}

/// The warnings that generating the record for `name` reports.
pub open spec fn model_warnings(name: Seq<char>, schema: Schema) -> Seq<(WarningKind, Seq<char>)> {
    match schema.object {
        None => seq![(WarningKind::NoObjectShape, name)],
        Some(_) => Seq::empty(),
    }
}


/// Whether `list` holds `name`.
pub fn contains_name(list: &Vec<String>, name: &str) -> (r: bool)
    ensures
        r == strings_view(list@).contains(name@),
{
    let mut i: usize = 0;
    while i < list.len()
        invariant
            i <= list@.len(),
            forall|j: int| 0 <= j < i ==> list@[j]@ != name@,
        decreases list.len() - i,
    {
        if str_eq(list[i].as_str(), name) {
            assert(strings_view(list@)[i as int] == name@);
            return true;
        }
        i = i + 1;
    }
    assert forall|j: int| 0 <= j < strings_view(list@).len() implies strings_view(list@)[j]
        != name@ by {
        assert(strings_view(list@)[j] == list@[j]@);
    }
    false
}

/// The declaration of the field for property `name` of an object schema.
pub fn generate_normal_field(name: &str, schema: &Schema, required_list: &Vec<String>) -> (r: Result<
    String,
    GenError,
>)
    ensures
        text_result(r) == field_spec(name@, *schema, strings_view(required_list@)),
{
    let ty = match map_type(&schema.format, &schema.instance_type, &schema.reference, false) {
        Some(t) => t,
        None => {
            return Err(GenError { kind: ErrorKind::UnmappableType, detail: owned(name) });
        },
    };
    let mut snake_name = to_snake_case(name);
    if is_keyword(snake_name.as_str()) {
        snake_name.append("_");
    }
    let required = contains_name(required_list, name);
    let mut out = owned("    #[serde(rename = \"");
    out.append(name);
    out.append("\")]\n");
    out.append("    pub ");
    out.append(snake_name.as_str());
    out.append(": ");
    if !required {
        out.append("Option<");
    }
    out.append(ty.as_str());
    if !required {
        out.append(">");
    }
    out.append(",\n");
    assert(out@ =~= field_text(name@, ty@, required));
    Ok(out)
}

/// The record definition file for schema `name`, reporting a schema without
/// an object shape to `warnings`.
pub fn generate_model(name: &str, object: &Schema, warnings: &mut Vec<Warning>) -> (r: Result<
    String,
    GenError,
>)
    ensures
        text_result(r) == model_spec(name@, *object),
        warnings_view(final(warnings)@) == warnings_view(old(warnings)@) + model_warnings(
            name@,
            *object,
        ),
{
    let mut out = owned("use serde::{Deserialize, Serialize};\nuse crate::models;\n\n");
    out.append("#[derive(Clone, Debug, Serialize, Deserialize)]\n");
    out.append("pub struct ");
    let pascal = to_pascal_case(name);
    out.append(pascal.as_str());
    out.append(" {\n");
    assert(out@ =~= model_header(name@));
    match &object.object {
        Some(shape) => {
            let ghost props = shape.properties@;
            let ghost req = strings_view(shape.required@);
            let n = shape.properties.len();
            let mut i: usize = 0;
            let mut fields = String::new();
            let ghost w0 = warnings@;
            while i < n
                invariant
                    n == props.len(),
                    props == shape.properties@,
                    req == strings_view(shape.required@),
                    i <= n,
                    warnings@ == w0,
                    w0 == old(warnings)@,
                    object.object == Some(*shape),
                    fields_spec(props.take(i as int), req) == Ok::<Seq<char>, (ErrorKind, Seq<char>)>(fields@),
                decreases n - i,
            {
                proof {
                    assert(props.take(i + 1).drop_last() =~= props.take(i as int));
                    assert(warnings_view(old(warnings)@) + model_warnings(name@, *object)
                        =~= warnings_view(warnings@));
                }
                let (prop_name, node) = shape.properties.entry(i);
                let field = match node {
                    SchemaNode::Bool(_) => {
                        proof {
                            lemma_fields_error_prefix(props, req, i + 1);
                        }
                        return Err(
                            GenError { kind: ErrorKind::UnsupportedBoolProperty, detail: owned(prop_name) },
                        );
                    },
                    SchemaNode::Object(s) => generate_normal_field(prop_name, s, &shape.required),
                };
                match field {
                    Err(e) => {
                        proof {
                            lemma_fields_error_prefix(props, req, i + 1);
                        }
                        return Err(e);
                    },
                    Ok(f) => {
                        fields.append(f.as_str());
                    },
                }
                i = i + 1;
            }
            proof {
                assert(props.take(n as int) =~= props);
            }
            out.append(fields.as_str());
        },
        None => {
            warnings.push(Warning { kind: WarningKind::NoObjectShape, detail: owned(name) });
        },
    }
    out.append("}\n\n");
    assert(warnings_view(final(warnings)@) =~= warnings_view(old(warnings)@) + model_warnings(
        name@,
        *object,
    ));
    Ok(out)
}

/// One generated record file: its name without extension, and its text.
pub struct ModelFile {
    pub file_stem: String,
    pub content: String,
}

/// All record files, and the text of the module that declares them.
pub struct GeneratedModels {
    pub files: Vec<ModelFile>,
    pub mod_rs: String,
}

/// The views of generated record files, as (stem, text) pairs.
pub open spec fn files_view(v: Seq<ModelFile>) -> Seq<(Seq<char>, Seq<char>)> {
    v.map_values(|f: ModelFile| (f.file_stem@, f.content@))
}

/// The lines of the models module that declare and re-export one file.
pub open spec fn mod_entry(stem: Seq<char>) -> Seq<char> {
    "pub mod "@ + stem + ";\n"@ + "pub use "@ + stem + "::*;\n\n"@
}

/// The record files for all schemas in registry order, each named by the
/// snake_case form of its schema's name, and the models module text.
pub open spec fn models_spec(schemas: Seq<(Seq<char>, Schema)>) -> Result<
    (Seq<(Seq<char>, Seq<char>)>, Seq<char>),
    (ErrorKind, Seq<char>),
>
    decreases schemas.len(),
{
    if schemas.len() == 0 {
        Ok((Seq::empty(), Seq::empty()))
    } else {
        match models_spec(schemas.drop_last()) {
            Err(e) => Err(e),
            Ok(prev) => match model_spec(schemas.last().0, schemas.last().1) {
                Err(e) => Err(e),
                Ok(content) => {
                    let stem = snake_case_of(schemas.last().0);
                    Ok((prev.0.push((stem, content)), prev.1 + mod_entry(stem)))
                },
            },
        }
    }
}

/// The warnings of generating all records, in registry order.
pub open spec fn models_warnings(schemas: Seq<(Seq<char>, Schema)>) -> Seq<(WarningKind, Seq<char>)>
    decreases schemas.len(),
{
    if schemas.len() == 0 {
        Seq::empty()
    } else {
        models_warnings(schemas.drop_last()) + model_warnings(schemas.last().0, schemas.last().1)
    }
}

/// Once a prefix of the schemas fails, all of them fail the same way.
pub proof fn lemma_models_error_prefix(schemas: Seq<(Seq<char>, Schema)>, k: int)
    requires
        0 <= k <= schemas.len(),
        models_spec(schemas.take(k)) is Err,
    ensures
        models_spec(schemas) == models_spec(schemas.take(k)),
    decreases schemas.len(),
{
    if k < schemas.len() {
        assert(schemas.drop_last().take(k) =~= schemas.take(k));
        lemma_models_error_prefix(schemas.drop_last(), k);
    } else {
        assert(schemas.take(k) =~= schemas);
    }
}

/// Generates the record file of every schema in the registry, in order.
pub fn generate_models(components: &Components, warnings: &mut Vec<Warning>) -> (r: Result<
    GeneratedModels,
    GenError,
>)
    ensures
        match r {
            Ok(g) => models_spec(components.schemas@) == Ok::<
                (Seq<(Seq<char>, Seq<char>)>, Seq<char>),
                (ErrorKind, Seq<char>),
            >((files_view(g.files@), g.mod_rs@)) && warnings_view(final(warnings)@)
                == warnings_view(old(warnings)@) + models_warnings(components.schemas@),
            Err(e) => models_spec(components.schemas@) == Err::<
                (Seq<(Seq<char>, Seq<char>)>, Seq<char>),
                (ErrorKind, Seq<char>),
            >(e@),
        },
        starts_with(warnings_view(final(warnings)@), warnings_view(old(warnings)@)),
{
    let ghost schemas = components.schemas@;
    let n = components.schemas.len();
    let mut files: Vec<ModelFile> = Vec::new();
    let mut mod_rs = String::new();
    let mut i: usize = 0;
    proof {
        assert(schemas.take(0) =~= Seq::<(Seq<char>, Schema)>::empty());
        assert(files_view(files@) =~= Seq::<(Seq<char>, Seq<char>)>::empty());
        assert(warnings_view(warnings@) =~= warnings_view(old(warnings)@) + models_warnings(
            schemas.take(0),
        ));
    }
    while i < n
        invariant
            n == schemas.len(),
            schemas == components.schemas@,
            i <= n,
            models_spec(schemas.take(i as int)) == Ok::<
                (Seq<(Seq<char>, Seq<char>)>, Seq<char>),
                (ErrorKind, Seq<char>),
            >((files_view(files@), mod_rs@)),
            warnings_view(warnings@) == warnings_view(old(warnings)@) + models_warnings(
                schemas.take(i as int),
            ),
        decreases n - i,
    {
        proof {
            assert(schemas.take(i + 1).drop_last() =~= schemas.take(i as int));
        }
        let (name, schema) = components.schemas.entry(i);
        let content = match generate_model(name, schema, warnings) {
            Ok(c) => c,
            Err(e) => {
                proof {
                    lemma_models_error_prefix(schemas, i + 1);
                    assert(warnings_view(warnings@).subrange(0, warnings_view(old(warnings)@).len() as int)
                        =~= warnings_view(old(warnings)@));
                }
                return Err(e);
            },
        };
        let stem = to_snake_case(name);
        let ghost prev_mod = mod_rs@;
        mod_rs.append("pub mod ");
        mod_rs.append(stem.as_str());
        mod_rs.append(";\n");
        mod_rs.append("pub use ");
        mod_rs.append(stem.as_str());
        mod_rs.append("::*;\n\n");
        let ghost prev_files = files@;
        files.push(ModelFile { file_stem: stem, content });
        proof {
            assert(mod_rs@ =~= prev_mod + mod_entry(stem@));
            assert(files_view(files@) =~= files_view(prev_files).push(
                (snake_case_of(name@), content@),
            ));
            assert(warnings_view(warnings@) =~= warnings_view(old(warnings)@) + models_warnings(
                schemas.take(i + 1),
            ));
        }
        i = i + 1;
    }
    proof {
        assert(schemas.take(n as int) =~= schemas);
        assert(warnings_view(warnings@).subrange(0, warnings_view(old(warnings)@).len() as int)
            =~= warnings_view(old(warnings)@));
    }
    Ok(GeneratedModels { files, mod_rs })
}

/// Optionality wrapping: a property outside its schema's required set gets
/// an `Option`-wrapped type, a required one the bare type, whenever its type
/// can be mapped.
pub proof fn lemma_optionality_wrapping(
    name: Seq<char>,
    schema: Schema,
    required: Seq<Seq<char>>,
)
    requires
        map_type_spec(
            opt_view(schema.format),
            schema.instance_type,
            opt_view(schema.reference),
            false,
        ) is Some,
    ensures
        ({
            let ty = map_type_spec(
                opt_view(schema.format),
                schema.instance_type,
                opt_view(schema.reference),
                false,
            )->0;
            &&& required.contains(name) ==> field_spec(name, schema, required) == Ok::<
                Seq<char>,
                (ErrorKind, Seq<char>),
            >(field_text(name, ty, true))
            &&& wrap_optional(ty, true) == ty
            &&& !required.contains(name) ==> field_spec(name, schema, required) == Ok::<
                Seq<char>,
                (ErrorKind, Seq<char>),
            >(field_text(name, ty, false))
            &&& wrap_optional(ty, false) == "Option<"@ + ty + ">"@
        }),
{
}

} // verus!
