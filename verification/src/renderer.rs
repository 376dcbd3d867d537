//! Renderer: validates a document's `type`, resolves its template and
//! renders it against the full Metadata Table as context.
//!
//! Only the type `html` is accepted; any other string is the recoverable
//! `UnsupportedType`, a non-string `type` or `template` the recoverable
//! `InvalidMetadataShape`. A name with no registered template is
//! `TemplateNotFound`; what the engine itself refuses is `RenderFailure`,
//! carrying the template's name, the engine's report and a snapshot of
//! the context, for diagnosis.

use vstd::prelude::*;

use crate::errors::DocError;
use crate::meta::key_template;
use crate::meta::key_type;
use crate::meta::table_clone;
use crate::meta::table_get;
use crate::meta::table_model;
use crate::meta::value_as_str;
use crate::meta::MetaVal;
use crate::registry::TemplateRegistry;

verus! {

/// Whether two strings hold the same characters.
pub fn str_eq(a: &str, b: &str) -> (r: bool)
    ensures
        r == (a@ == b@),
{
    let a_owned = a.to_owned();
    let b_owned = b.to_owned();
    a_owned == b_owned
}

/// When a render succeeds with output `out`: the document's type is
/// `html`, its template names a registered one, the engine's decision for
/// it is success, and the output is exactly that decision's text.
pub open spec fn render_ok_spec(
    reg: &TemplateRegistry,
    m: Map<Seq<char>, MetaVal>,
    out: Seq<char>,
) -> bool {
    m[key_type()] == MetaVal::Str("html"@) && (m[key_template()] matches MetaVal::Str(name)
        && reg@.contains_key(name) && reg.render_model(name, m) == Ok::<Seq<char>, Seq<char>>(out))
}

/// Which tables cause each failure condition of the Renderer, with each
/// condition's payloads pinned: the offending type value, the offending
/// field, the missing name, or the engine's own refusal with its report
/// and a snapshot of the context.
pub open spec fn render_error_spec(
    reg: &TemplateRegistry,
    m: Map<Seq<char>, MetaVal>,
    e: DocError,
) -> bool {
    match e {
        DocError::UnsupportedType(ty) => m[key_type()] == MetaVal::Str(ty@) && ty@ != "html"@,
        DocError::InvalidMetadataShape { field } => (field@ == "type"@ && !(m[key_type()] is Str))
            || (field@ == "template"@ && m[key_type()] == MetaVal::Str("html"@)
            && !(m[key_template()] is Str)),
        DocError::TemplateNotFound(name) => m[key_type()] == MetaVal::Str("html"@)
            && m[key_template()] == MetaVal::Str(name@) && !reg@.contains_key(name@),
        DocError::RenderFailure { template, message, context } => m[key_type()] == MetaVal::Str(
            "html"@,
        ) && m[key_template()] == MetaVal::Str(template@) && reg@.contains_key(template@)
            && table_model(context) == m && reg.render_model(template@, m) == Err::<
            Seq<char>,
            Seq<char>,
        >(message@),
        _ => false,
    }
}

/// Renders one loaded document against the registry. The table must hold
/// the `type` and `template` keys, as every loaded table does. The result
/// is pinned on both sides: it succeeds exactly on the tables whose type
/// is `html`, whose template names a registered one and whose render the
/// engine accepts — with the output the engine's — and each failure
/// condition is tied to exactly the tables that cause it.
pub fn render_document(
    reg: &TemplateRegistry,
    table: &toml::map::Map<String, toml::Value>,
) -> (r: Result<String, DocError>)
    requires
        table_model(*table).contains_key(key_type()),
        table_model(*table).contains_key(key_template()),
    ensures
        ({
            let m = table_model(*table);
            match r {
                Ok(out) => render_ok_spec(reg, m, out@),
                Err(e) => render_error_spec(reg, m, e),
            }
        }),
{
    let type_value = match table_get(table, "type") {
        Some(v) => v,
        None => {
            proof {
                assert(false);
            }
            return Err(DocError::InvalidMetadataShape { field: "type".to_owned() });
        },
    };
    let type_str = match value_as_str(type_value) {
        Some(s) => s,
        None => {
            return Err(DocError::InvalidMetadataShape { field: "type".to_owned() });
        },
    };
    if !str_eq(type_str, "html") {
        return Err(DocError::UnsupportedType(type_str.to_owned()));
    }
    let template_value = match table_get(table, "template") {
        Some(v) => v,
        None => {
            proof {
                assert(false);
            }
            return Err(DocError::InvalidMetadataShape { field: "type".to_owned() });
        },
    };
    let name = match value_as_str(template_value) {
        Some(s) => s,
        None => {
            return Err(DocError::InvalidMetadataShape { field: "template".to_owned() });
        },
    };
    if !reg.contains(name) {
        return Err(DocError::TemplateNotFound(name.to_owned()));
    }
    match reg.render_raw(name, table) {
        Ok(out) => Ok(out),
        Err(message) => Err(
            DocError::RenderFailure {
                template: name.to_owned(),
                message,
                context: table_clone(table),
            },
        ),
    }
}

} // verus!
