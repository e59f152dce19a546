//! The type mapper: from a schema's format, instance type and pointer to the
//! text of a Rust type.
use vstd::prelude::*;
use vstd::string::StringExecFns;
use crate::document::{InstanceType, TypeHint};
use crate::naming::{pascal_case_of, to_pascal_case};
use crate::text::{last_segment, lemma_segments_nonempty, opt_view, owned, split_on, str_eq};

verus! {

/// The path under the generated `models` module of the record a pointer
/// names: its last `/`-separated piece in PascalCase.
pub open spec fn models_path_spec(reference: Seq<char>) -> Seq<char> {
    "models::"@ + pascal_case_of(last_segment(reference, '/'))
}

/// The type a format string stands for, if it is one of the known formats.
pub open spec fn format_type(format: Seq<char>, as_ref: bool) -> Option<Seq<char>> {
    if format == "base64uuid"@ {
        Some("base64uuid::Base64Uuid"@)
    } else if format == "name"@ {
        if as_ref {
            Some("&fiberplane_models::names::Name"@)
        } else {
            Some("fiberplane_models::names::Name"@)
        }
    } else if format == "int32"@ {
        Some("i32"@)
    } else if format == "int64"@ {
        Some("i64"@)
    } else if format == "float"@ {
        Some("f32"@)
    } else if format == "double"@ {
        Some("f64"@)
    } else if format == "byte"@ || format == "binary"@ {
        Some("Vec<u8>"@)
    } else if format == "date"@ || format == "date-time"@ {
        Some("fiberplane_models::timestamps::Timestamp"@)
    } else if format == "password"@ {
        Some("secrecy::SecretString"@)
    } else {
        None
    }
}

/// The type a single instance type stands for. An array is a list of the
/// pointed-to record when a pointer is given, else of untyped JSON values.
pub open spec fn instance_type_rule(
    t: InstanceType,
    reference: Option<Seq<char>>,
    as_ref: bool,
) -> Seq<char> {
    match t {
        InstanceType::Null => "()"@,
        InstanceType::Boolean => "bool"@,
        InstanceType::Object => "std::collections::HashMap<String, String>"@,
        InstanceType::Array => match reference {
            Some(r) => "Vec<"@ + models_path_spec(r) + ">"@,
            None => "Vec<serde_json::Value>"@,
        },
        InstanceType::Number => "i64"@,
        InstanceType::String => if as_ref {
            "&str"@
        } else {
            "String"@
        },
        InstanceType::Integer => "i32"@,
    }
}

/// The mapped type: a known format first, then a single instance type, then
/// the pointed-to record; nothing when none of them applies.
pub open spec fn map_type_spec(
    format: Option<Seq<char>>,
    instance_type: Option<TypeHint>,
    reference: Option<Seq<char>>,
    as_ref: bool,
) -> Option<Seq<char>> {
    let by_format = match format {
        Some(f) => format_type(f, as_ref),
        None => None,
    };
    if by_format is Some {
        by_format
    } else {
        match instance_type {
            Some(TypeHint::Single(t)) => Some(instance_type_rule(t, reference, as_ref)),
            _ => match reference {
                Some(r) => Some(models_path_spec(r)),
                None => None,
            },
        }
    }
}

/// The table is total on single instance types: with one given, mapping never
/// fails. A known format decides the type, whatever else is given; otherwise
/// the instance type does. Both `byte` and `binary` give raw bytes, and
/// `number` gives a 64-bit integer.
pub proof fn lemma_type_table_complete(
    format: Option<Seq<char>>,
    t: InstanceType,
    reference: Option<Seq<char>>,
    as_ref: bool,
)
    ensures
        map_type_spec(format, Some(TypeHint::Single(t)), reference, as_ref) is Some,
        format is Some && format_type(format->0, as_ref) is Some ==> map_type_spec(
            format,
            Some(TypeHint::Single(t)),
            reference,
            as_ref,
        ) == format_type(format->0, as_ref),
        (format is None || format_type(format->0, as_ref) is None) ==> map_type_spec(
            format,
            Some(TypeHint::Single(t)),
            reference,
            as_ref,
        ) == Some(instance_type_rule(t, reference, as_ref)),
        format_type("byte"@, as_ref) == Some("Vec<u8>"@),
        format_type("binary"@, as_ref) == Some("Vec<u8>"@),
        instance_type_rule(InstanceType::Number, reference, as_ref) == "i64"@,
{
    reveal_strlit("byte");
    reveal_strlit("binary");
    reveal_strlit("base64uuid");
    reveal_strlit("name");
    reveal_strlit("int32");
    reveal_strlit("int64");
    reveal_strlit("float");
    reveal_strlit("double");
    assert("byte"@.len() != "base64uuid"@.len());
    assert("byte"@[0] != "name"@[0]);
    assert("byte"@[0] != "int32"@[0]);
    assert("byte"@[0] != "int64"@[0]);
    assert("byte"@[0] != "float"@[0]);
    assert("byte"@[0] != "double"@[0]);
    assert("binary"@.len() != "base64uuid"@.len());
    assert("binary"@[0] != "name"@[0]);
    assert("binary"@[0] != "int32"@[0]);
    assert("binary"@[0] != "int64"@[0]);
    assert("binary"@[0] != "float"@[0]);
    assert("binary"@[0] != "double"@[0]);
}


/// The path of the generated record that a pointer names.
pub fn reference_name_to_models_path(input: &str) -> (r: String)
    ensures
        r@ == models_path_spec(input@),
{
    let pieces = split_on(input, '/');
    proof {
        lemma_segments_nonempty(input@, '/');
    }
    let last = pieces.len() - 1;
    let name = to_pascal_case(pieces[last].as_str());
    let mut r = owned("models::");
    r.append(name.as_str());
    r
}

fn format_type_of(format: &str, as_ref: bool) -> (r: Option<String>)
    ensures
        opt_view(r) == format_type(format@, as_ref),
{
    if str_eq(format, "base64uuid") {
        Some(owned("base64uuid::Base64Uuid"))
    } else if str_eq(format, "name") {
        if as_ref {
            Some(owned("&fiberplane_models::names::Name"))
        } else {
            Some(owned("fiberplane_models::names::Name"))
        }
    } else if str_eq(format, "int32") {
        Some(owned("i32"))
    } else if str_eq(format, "int64") {
        Some(owned("i64"))
    } else if str_eq(format, "float") {
        Some(owned("f32"))
    } else if str_eq(format, "double") {
        Some(owned("f64"))
    } else if str_eq(format, "byte") || str_eq(format, "binary") {
        Some(owned("Vec<u8>"))
    } else if str_eq(format, "date") || str_eq(format, "date-time") {
        Some(owned("fiberplane_models::timestamps::Timestamp"))
    } else if str_eq(format, "password") {
        Some(owned("secrecy::SecretString"))
    } else {
        None
    }
}

fn instance_type_text(t: InstanceType, reference: &Option<String>, as_ref: bool) -> (r: String)
    ensures
        r@ == instance_type_rule(t, opt_view(*reference), as_ref),
{
    match t {
        InstanceType::Null => owned("()"),
        InstanceType::Boolean => owned("bool"),
        InstanceType::Object => owned("std::collections::HashMap<String, String>"),
        InstanceType::Array => match reference {
            Some(r) => {
                let mut s = owned("Vec<");
                let path = reference_name_to_models_path(r.as_str());
                s.append(path.as_str());
                s.append(">");
                s
            },
            None => owned("Vec<serde_json::Value>"),
        },
        InstanceType::Number => owned("i64"),
        InstanceType::String => if as_ref {
            owned("&str")
        } else {
            owned("String")
        },
        InstanceType::Integer => owned("i32"),
    }
}

/// Maps a schema's type descriptors to a type; `as_ref` asks for the borrowed
/// form used in function parameters. Nothing comes back when no rule applies.
pub fn map_type(
    format: &Option<String>,
    instance_type: &Option<TypeHint>,
    reference: &Option<String>,
    as_ref: bool,
) -> (r: Option<String>)
    ensures
        opt_view(r) == map_type_spec(opt_view(*format), *instance_type, opt_view(*reference), as_ref),
{
    if let Some(f) = format {
        let known = format_type_of(f.as_str(), as_ref);
        if known.is_some() {
            return known;
        }
    }
    match instance_type {
        Some(TypeHint::Single(t)) => Some(instance_type_text(*t, reference, as_ref)),
        _ => match reference {
            Some(r) => Some(reference_name_to_models_path(r.as_str())),
            None => None,
        },
    }
}

} // verus!
