//! Template Registry: named templates, compiled by the handlebars engine.
//!
//! The registry follows a two-phase life: it is filled once at startup and
//! read-only thereafter. Its model is the map from template name to the
//! source text registered under it; a later registration for a name
//! displaces an earlier one. The engine decides deterministically: whether
//! a source compiles is a function of the engine and the source text
//! ([`compiles_in`]), and what rendering yields — success with its output,
//! or failure with its report — is a function of the registry, the
//! template's name and the context table's entries alone (the engine
//! serializes the context by walking its entries); [`render_result_of`]
//! names that decision.

use vstd::prelude::*;
use vstd::string::StrSliceExecFns;

use crate::meta::table_model;
use crate::meta::MetaVal;
use crate::paths::file_stem_of;
use crate::paths::file_stem_spec;

verus! {

#[verifier::external_type_specification]
#[verifier::external_body]
pub struct ExHandlebars<'reg>(handlebars::Handlebars<'reg>);

/// The templates a registry holds: source text by name.
pub uninterp spec fn registry_model(h: handlebars::Handlebars<'static>) -> Map<
    Seq<char>,
    Seq<char>,
>;

/// The engine's decision for rendering a named template against a
/// context: `Ok` with the output text, or `Err` with the engine's report —
/// a function of the registry, the name and the context's entries alone.
pub uninterp spec fn render_result_of(
    h: handlebars::Handlebars<'static>,
    name: Seq<char>,
    ctx: Map<Seq<char>, MetaVal>,
) -> Result<Seq<char>, Seq<char>>;

/// Whether the engine compiles a template source: a function of the
/// engine's settings and the source text alone.
pub uninterp spec fn compiles_in(h: handlebars::Handlebars<'static>, source: Seq<char>) -> bool;

/// Relies on `handlebars::Handlebars::new`: a registry with no templates.
#[verifier::external_body]
fn hb_new() -> (h: handlebars::Handlebars<'static>)
    ensures
        registry_model(h) =~= Map::empty(),
{
    handlebars::Handlebars::new()
}

/// Relies on `handlebars::Handlebars::register_template_string`: the
/// source compiles or not by the engine's judgment of the text alone; on
/// success the compiled template stands under the name, displacing any
/// earlier one; a source that does not compile changes nothing and its
/// report comes back.
#[verifier::external_body]
fn hb_register(h: &mut handlebars::Handlebars<'static>, name: &str, source: &str) -> (r: Result<
    (),
    String,
>)
    ensures
        r is Ok <==> compiles_in(*old(h), source@),
        r is Ok ==> registry_model(*final(h)) == registry_model(*old(h)).insert(name@, source@),
        r is Err ==> registry_model(*final(h)) == registry_model(*old(h)),
{
    match h.register_template_string(name, source) {
        Ok(()) => Ok(()),
        Err(e) => Err(format!("{e}")),
    }
}

/// Relies on `handlebars::Handlebars::has_template`.
#[verifier::external_body]
fn hb_has_template(h: &handlebars::Handlebars<'static>, name: &str) -> (b: bool)
    ensures
        b == registry_model(*h).contains_key(name@),
{
    h.has_template(name)
}

/// Relies on `handlebars::Handlebars::render`: the call returns exactly
/// the engine's decision `render_result_of` — output on success, report on
/// failure — and a name with no registered template is refused.
#[verifier::external_body]
fn hb_render(
    h: &handlebars::Handlebars<'static>,
    name: &str,
    ctx: &toml::map::Map<String, toml::Value>,
) -> (r: Result<String, String>)
    ensures
        match r {
            Ok(out) => render_result_of(*h, name@, table_model(*ctx)) matches Ok(o) && o == out@,
            Err(report) => render_result_of(*h, name@, table_model(*ctx)) matches Err(m) && m
                == report@,
        },
        !registry_model(*h).contains_key(name@) ==> r is Err,
{
    match h.render(name, ctx) {
        Ok(out) => Ok(out),
        Err(e) => Err(format!("{e}")),
    }
}

/// The Template Registry: built before the walk begins, read-only after.
pub struct TemplateRegistry {
    engine: handlebars::Handlebars<'static>,
}

impl View for TemplateRegistry {
    type V = Map<Seq<char>, Seq<char>>;

    /// The registered template sources, by name.
    closed spec fn view(&self) -> Map<Seq<char>, Seq<char>> {
        registry_model(self.engine)
    }
}

impl TemplateRegistry {
    /// The engine's decision for rendering a named template of this
    /// registry against a context — output on success, report on failure;
    /// a function of the registry, the name and the context alone.
    pub closed spec fn render_model(&self, name: Seq<char>, ctx: Map<Seq<char>, MetaVal>) -> Result<
        Seq<char>,
        Seq<char>,
    > {
        render_result_of(self.engine, name, ctx)
    }

    /// Whether this registry's engine compiles a template source.
    pub closed spec fn accepts(&self, source: Seq<char>) -> bool {
        compiles_in(self.engine, source)
    }

    /// An empty registry.
    pub fn new() -> (r: Self)
        ensures
            r@ =~= Map::<Seq<char>, Seq<char>>::empty(),
    {
        TemplateRegistry { engine: hb_new() }
    }

    /// Registers a template under a name: it succeeds exactly when the
    /// engine compiles the source. A later registration for the same name
    /// wins; a source that does not compile is a fatal startup failure
    /// and leaves the registry unchanged.
    pub fn register(&mut self, name: &str, source: &str) -> (r: Result<(), String>)
        ensures
            r is Ok <==> old(self).accepts(source@),
            r is Ok ==> final(self)@ == old(self)@.insert(name@, source@),
            r is Err ==> final(self)@ == old(self)@,
    {
        hb_register(&mut self.engine, name, source)
    }

    /// Registers a template read from a file: the name is the file's stem
    /// (its base name with the extension removed); an empty stem skips
    /// the entry, which is not an error; a non-empty stem registers, and
    /// succeeds exactly when the engine compiles the source. Yields
    /// whether it was registered.
    pub fn register_file_source(&mut self, path: &str, source: &str) -> (r: Result<bool, String>)
        ensures
            r matches Ok(true) ==> file_stem_spec(path@).len() > 0 && old(self).accepts(source@)
                && final(self)@ == old(self)@.insert(file_stem_spec(path@), source@),
            r matches Ok(false) ==> file_stem_spec(path@).len() == 0 && final(self)@ == old(self)@,
            r is Err ==> file_stem_spec(path@).len() > 0 && !old(self).accepts(source@)
                && final(self)@ == old(self)@,
    {
        let stem = file_stem_of(path);
        if stem.as_str().unicode_len() == 0 {
            Ok(false)
        } else {
            match self.register(stem.as_str(), source) {
                Ok(()) => Ok(true),
                Err(e) => Err(e),
            }
        }
    }

    /// Whether a template is registered under the name.
    pub fn contains(&self, name: &str) -> (b: bool)
        ensures
            b == self@.contains_key(name@),
    {
        hb_has_template(&self.engine, name)
    }

    /// Renders the named template against a context table: exactly the
    /// engine's decision `render_model`, with an unregistered name refused.
    pub(crate) fn render_raw(
        &self,
        name: &str,
        ctx: &toml::map::Map<String, toml::Value>,
    ) -> (r: Result<String, String>)
        ensures
            match r {
                Ok(out) => self.render_model(name@, table_model(*ctx)) matches Ok(o) && o == out@,
                Err(report) => self.render_model(name@, table_model(*ctx)) matches Err(m) && m
                    == report@,
            },
            !self@.contains_key(name@) ==> r is Err,
    {
        hb_render(&self.engine, name, ctx)
    }
}

/// Last registration wins: after two templates are registered under one
/// name, in order, the registry holds the later one.
pub proof fn lemma_last_registration_wins(
    reg: Map<Seq<char>, Seq<char>>,
    name: Seq<char>,
    first: Seq<char>,
    second: Seq<char>,
)
    ensures
        reg.insert(name, first).insert(name, second)[name] == second,
        forall|other: Seq<char>|
            other != name && reg.contains_key(other) ==> reg.insert(name, first).insert(
                name,
                second,
            )[other] == reg[other],
{
}

} // verus!
