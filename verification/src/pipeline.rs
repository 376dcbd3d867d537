//! The per-document pipeline: load, render, resolve assets.
//!
//! One call takes a document's root-relative path and raw text and yields
//! everything the walk needs to act on: the rendered output and the paths
//! to copy, or the typed condition that stopped the document. The caller
//! writes the output only when rendering succeeded in full, and copies
//! assets only when their key has a valid shape — a bad `assets` key
//! spoils the copies, not the already rendered output.
//!
//! The whole outcome is a function of the registry, the path and the text
//! alone ([`outcome_matches`] pins it), so running the pipeline again over
//! an unchanged input gives the same outcome, byte for byte
//! ([`lemma_run_idempotent`]).

use vstd::prelude::*;

use crate::assets::asset_paths;
use crate::assets::asset_paths_spec;
use crate::errors::DocError;
use crate::loader::load_document;
use crate::loader::loaded_model;
use crate::meta::table_model;
use crate::registry::TemplateRegistry;
use crate::renderer::render_document;
use crate::renderer::render_error_spec;
use crate::renderer::render_ok_spec;

verus! {

/// What became of one document.
pub enum DocOutcome {
    /// It rendered; the output to write and the asset paths to copy.
    Rendered { output: String, assets: Vec<String> },
    /// It rendered — the output still stands and is written — but its
    /// `assets` key has the wrong shape, so nothing is copied and the
    /// document counts as failed.
    RenderedBadAssets { output: String },
    /// It could not be loaded or rendered; nothing is written.
    Failed(DocError),
}

/// The one outcome the pipeline owes for a document: loading decides the
/// table, the table and the registry decide the rendering, the table
/// decides the asset paths. Every branch pins the outcome's variant and
/// payloads, so the outcome is a function of the registry, the path and
/// the text alone.
pub open spec fn outcome_matches(
    reg: &TemplateRegistry,
    path: Seq<char>,
    content: Seq<char>,
    r: DocOutcome,
) -> bool {
    match loaded_model(content, path) {
        Err(load_error) => r matches DocOutcome::Failed(e) && e == load_error,
        Ok(m) => match r {
            DocOutcome::Rendered { output, assets } => render_ok_spec(reg, m, output@)
                && (asset_paths_spec(m) matches Ok(l) && assets@.len() == l.len() && (forall|i: int|
                0 <= i < l.len() ==> assets@[i]@ == l[i])),
            DocOutcome::RenderedBadAssets { output } => render_ok_spec(reg, m, output@)
                && asset_paths_spec(m) is Err,
            DocOutcome::Failed(e) => render_error_spec(reg, m, e),
        },
    }
}

/// Two outcomes carry the same bytes: the same variant, with equal output
/// text, equal asset paths, or the same condition with equal payloads
/// (for an engine failure, also snapshots holding the same entries).
pub open spec fn outcome_eq(a: DocOutcome, b: DocOutcome) -> bool {
    match (a, b) {
        (
            DocOutcome::Rendered { output: out_a, assets: assets_a },
            DocOutcome::Rendered { output: out_b, assets: assets_b },
        ) => out_a@ == out_b@ && assets_a@.len() == assets_b@.len() && (forall|i: int|
            0 <= i < assets_a@.len() ==> assets_a@[i]@ == assets_b@[i]@),
        (
            DocOutcome::RenderedBadAssets { output: out_a },
            DocOutcome::RenderedBadAssets { output: out_b },
        ) => out_a@ == out_b@,
        (DocOutcome::Failed(e_a), DocOutcome::Failed(e_b)) => error_eq(e_a, e_b),
        _ => false,
    }
}

/// Two conditions are the same failure with equal payloads.
pub open spec fn error_eq(a: DocError, b: DocError) -> bool {
    match (a, b) {
        (DocError::NoExtension, DocError::NoExtension) => true,
        (DocError::UnsupportedType(ty_a), DocError::UnsupportedType(ty_b)) => ty_a@ == ty_b@,
        (
            DocError::InvalidMetadataShape { field: field_a },
            DocError::InvalidMetadataShape { field: field_b },
        ) => field_a@ == field_b@,
        (DocError::TemplateNotFound(name_a), DocError::TemplateNotFound(name_b)) => name_a@
            == name_b@,
        (
            DocError::RenderFailure { template: t_a, message: m_a, context: c_a },
            DocError::RenderFailure { template: t_b, message: m_b, context: c_b },
        ) => t_a@ == t_b@ && m_a@ == m_b@ && table_model(c_a) == table_model(c_b),
        (DocError::InvalidAssetsShape, DocError::InvalidAssetsShape) => true,
        _ => false,
    }
}

/// Runs one document through the pipeline: split, parse, default, check
/// the type, render, resolve assets. The result is exactly the outcome
/// the inputs owe.
pub fn process_document(reg: &TemplateRegistry, path: &str, content: &str) -> (r: DocOutcome)
    ensures
        outcome_matches(reg, path@, content@, r),
{
    let table = match load_document(path, content) {
        Ok(t) => t,
        Err(e) => {
            return DocOutcome::Failed(e);
        },
    };
    let output = match render_document(reg, &table) {
        Ok(out) => out,
        Err(e) => {
            return DocOutcome::Failed(e);
        },
    };
    match asset_paths(&table) {
        Ok(assets) => DocOutcome::Rendered { output, assets },
        Err(_) => DocOutcome::RenderedBadAssets { output },
    }
}

/// Running the pipeline again over an unchanged document, with an
/// unchanged registry, is idempotent: any two outcomes the contract of
/// `process_document` admits for the same registry, path and text carry
/// the same bytes — the same variant, output, asset paths and condition.
/// Over an unchanged input tree the second run therefore writes a
/// byte-identical output tree and skips the same documents.
pub proof fn lemma_run_idempotent(
    reg: &TemplateRegistry,
    path: Seq<char>,
    content: Seq<char>,
    first: DocOutcome,
    second: DocOutcome,
)
    requires
        outcome_matches(reg, path, content, first),
        outcome_matches(reg, path, content, second),
    ensures
        outcome_eq(first, second),
{
    match loaded_model(content, path) {
        Err(load_error) => {
            match (first, second) {
                (DocOutcome::Failed(e_a), DocOutcome::Failed(e_b)) => {
                    assert(e_a == load_error && e_b == load_error);
                    match e_a {
                        DocError::NoExtension => {},
                        DocError::UnsupportedType(_) => {},
                        DocError::InvalidMetadataShape { .. } => {},
                        DocError::TemplateNotFound(_) => {},
                        DocError::RenderFailure { .. } => {},
                        DocError::InvalidAssetsShape => {},
                    }
                },
                _ => {},
            }
        },
        Ok(m) => {
            match (first, second) {
                (
                    DocOutcome::Rendered { output: out_a, assets: assets_a },
                    DocOutcome::Rendered { output: out_b, assets: assets_b },
                ) => {
                    let l = asset_paths_spec(m)->Ok_0;
                    assert forall|i: int| 0 <= i < assets_a@.len() implies assets_a@[i]@
                        == assets_b@[i]@ by {
                        assert(assets_a@[i]@ == l[i]);
                        assert(assets_b@[i]@ == l[i]);
                    }
                },
                (DocOutcome::Failed(e_a), DocOutcome::Failed(e_b)) => {
                    match (e_a, e_b) {
                        (
                            DocError::InvalidMetadataShape { field: field_a },
                            DocError::InvalidMetadataShape { field: field_b },
                        ) => {
                            if !(m[crate::meta::key_type()] is Str) {
                                assert(field_a@ == "type"@ && field_b@ == "type"@);
                            } else {
                                assert(field_a@ == "template"@ && field_b@ == "template"@);
                            }
                        },
                        _ => {},
                    }
                },
                _ => {},
            }
        },
    }
}

} // verus!
