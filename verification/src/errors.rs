//! Typed per-document failure conditions.
//!
//! Every condition here is a content-class failure of one document: under
//! a skip-and-continue walk the document is skipped and the run goes on,
//! under an abort walk the run stops. I/O failures never arise in this
//! crate; the caller doing the reading and writing classifies those itself.
//! Each condition carries the field, value or name implicated, so a
//! diagnostic can say what went wrong and where.

use vstd::prelude::*;
use vstd::string::StringExecFns;

verus! {

/// Why one document could not be processed.
#[derive(Debug, PartialEq)]
pub enum DocError {
    /// The source path has no extension to derive the `type` key from.
    NoExtension,
    /// The `type` key holds a string other than `html`; carries that string.
    UnsupportedType(String),
    /// The named key holds a value that is not a string.
    InvalidMetadataShape { field: String },
    /// The `template` key names no registered template; carries the name.
    TemplateNotFound(String),
    /// The template engine refused to render; carries the template's name,
    /// the engine's report and a snapshot of the rendering context.
    RenderFailure { template: String, message: String, context: toml::map::Map<String, toml::Value> },
    /// The `assets` key holds neither a string nor an array.
    InvalidAssetsShape,
}

/// The report each condition owes: its fixed text together with the
/// offending value, field or name it carries.
pub open spec fn describe_spec(e: DocError) -> Seq<char> {
    match e {
        DocError::NoExtension => "the source path has no extension to derive a type from"@,
        DocError::UnsupportedType(ty) => "cannot handle files of type "@ + ty@,
        DocError::InvalidMetadataShape { field } => "the "@ + field@
            + " field should hold a string"@,
        DocError::TemplateNotFound(name) => "no template registered under the name "@ + name@,
        DocError::RenderFailure { template, message, context: _ } => "failed to render template "@
            + template@ + ": "@ + message@,
        DocError::InvalidAssetsShape => "the assets field should be a single path or an array of paths"@,
    }
}

impl DocError {
    /// The condition's report, exactly `describe_spec`.
    pub fn describe(&self) -> (r: String)
        ensures
            r@ == describe_spec(*self),
    {
        match self {
            DocError::NoExtension => {
                "the source path has no extension to derive a type from".to_owned()
            },
            DocError::UnsupportedType(ty) => {
                let mut r = "cannot handle files of type ".to_owned();
                r.append(ty.as_str());
                r
            },
            DocError::InvalidMetadataShape { field } => {
                let mut r = "the ".to_owned();
                r.append(field.as_str());
                r.append(" field should hold a string");
                r
            },
            DocError::TemplateNotFound(name) => {
                let mut r = "no template registered under the name ".to_owned();
                r.append(name.as_str());
                r
            },
            DocError::RenderFailure { template, message, context: _ } => {
                let mut r = "failed to render template ".to_owned();
                r.append(template.as_str());
                r.append(": ");
                r.append(message.as_str());
                r
            },
            DocError::InvalidAssetsShape => {
                "the assets field should be a single path or an array of paths".to_owned()
            },
        }
    }
}

} // verus!
