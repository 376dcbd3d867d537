//! The Metadata Table: one document's parsed front matter, carried as a
//! toml table and read through a small trusted boundary.
//!
//! The pipeline's rules look at three shapes only — a string, an array,
//! anything else — so the table is modelled as a map from key to
//! [`MetaVal`]. A value the rules never take apart is carried whole in
//! [`MetaVal::Other`]; the model therefore distinguishes any two tables
//! whose entries differ, and what a table renders to is a function of its
//! model alone (toml serializes a table by walking its entries).

use vstd::prelude::*;

verus! {

#[verifier::external_type_specification]
#[verifier::external_body]
pub struct ExTomlValue(toml::Value);

#[verifier::external_type_specification]
#[verifier::external_body]
#[verifier::reject_recursive_types(K)]
#[verifier::reject_recursive_types(V)]
pub struct ExTomlMap<K, V>(toml::map::Map<K, V>);

/// Shape of one metadata value, as the pipeline's rules see it.
pub enum MetaVal {
    /// A string value, as its characters.
    Str(Seq<char>),
    /// An array value, as the shapes of its items.
    List(Seq<MetaVal>),
    /// Any other value (integer, float, boolean, datetime, nested table),
    /// carried whole; the rules only pass it through to the engine.
    Other(toml::Value),
}

/// Shape of one toml value.
pub uninterp spec fn value_model(v: toml::Value) -> MetaVal;

/// The entries of a toml table: what each key is bound to, by shape.
pub uninterp spec fn table_model(t: toml::map::Map<String, toml::Value>) -> Map<
    Seq<char>,
    MetaVal,
>;

/// The table that parsing a front-matter block yields: a function of the
/// text alone, with malformed text yielding the empty table.
pub uninterp spec fn toml_table_of(s: Seq<char>) -> Map<Seq<char>, MetaVal>;

/// Relies on `str::parse::<toml::Table>`: parses a front-matter block,
/// falling back to the empty table when the text is not well-formed toml,
/// so a parse failure never reaches the caller. The empty block parses to
/// the empty table.
#[verifier::external_body]
pub(crate) fn parse_front_matter(s: &str) -> (t: toml::map::Map<String, toml::Value>)
    ensures
        table_model(t) == toml_table_of(s@),
        s@.len() == 0 ==> table_model(t) =~= Map::empty(),
{
    s.parse().unwrap_or_default()
}

/// Relies on `toml::map::Map::contains_key`.
#[verifier::external_body]
pub(crate) fn table_contains_key(t: &toml::map::Map<String, toml::Value>, k: &str) -> (b: bool)
    ensures
        b == table_model(*t).contains_key(k@),
{
    t.contains_key(k)
}

/// Relies on `toml::map::Map::get`: the value under the key, if any.
#[verifier::external_body]
pub(crate) fn table_get<'a>(t: &'a toml::map::Map<String, toml::Value>, k: &str) -> (r: Option<
    &'a toml::Value,
>)
    ensures
        match r {
            Some(v) => table_model(*t).contains_key(k@) && value_model(*v) == table_model(*t)[k@],
            None => !table_model(*t).contains_key(k@),
        },
{
    t.get(k)
}

/// Relies on `toml::map::Map::insert`: the string now stands under the
/// key, displacing any earlier binding; every other key is unchanged.
#[verifier::external_body]
pub(crate) fn table_insert_str(t: &mut toml::map::Map<String, toml::Value>, k: &str, v: &str)
    ensures
        table_model(*final(t)) == table_model(*old(t)).insert(k@, MetaVal::Str(v@)),
{
    t.insert(k.to_string(), toml::Value::String(v.to_string()));
}

/// Relies on `toml::map::Map::clone`: a snapshot holding the same entries.
#[verifier::external_body]
pub(crate) fn table_clone(t: &toml::map::Map<String, toml::Value>) -> (r: toml::map::Map<
    String,
    toml::Value,
>)
    ensures
        table_model(r) == table_model(*t),
{
    t.clone()
}

/// Relies on `toml::Value::as_str`: the characters of a string value.
#[verifier::external_body]
pub(crate) fn value_as_str<'a>(v: &'a toml::Value) -> (r: Option<&'a str>)
    ensures
        match r {
            Some(s) => value_model(*v) == MetaVal::Str(s@),
            None => !(value_model(*v) is Str),
        },
{
    v.as_str()
}

/// Relies on `toml::Value::as_array`: the items of an array value, in order.
#[verifier::external_body]
pub(crate) fn value_as_array<'a>(v: &'a toml::Value) -> (r: Option<&'a Vec<toml::Value>>)
    ensures
        match r {
            Some(a) => value_model(*v) == MetaVal::List(
                Seq::new(a@.len(), |i: int| value_model(a@[i])),
            ),
            None => !(value_model(*v) is List),
        },
{
    v.as_array()
}

/// The key whose value names the template to render with.
pub open spec fn key_template() -> Seq<char> {
    "template"@
}

/// The key whose value names the document's content type.
pub open spec fn key_type() -> Seq<char> {
    "type"@
}

/// The key under which the body text stands in the rendering context.
pub open spec fn key_body() -> Seq<char> {
    "BODY"@
}

/// The key naming a single stylesheet to copy.
pub open spec fn key_stylesheet() -> Seq<char> {
    "stylesheet"@
}

/// The key naming a single script to copy.
pub open spec fn key_script() -> Seq<char> {
    "script"@
}

/// The key naming one asset path, or an array of them, to copy.
pub open spec fn key_assets() -> Seq<char> {
    "assets"@
}

} // verus!
