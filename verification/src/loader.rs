//! Document Loader: turns one source file's text into a fully defaulted
//! Metadata Table plus body.
//!
//! The raw text is split at the delimiter line, the front matter is parsed
//! (malformed front matter degrades to the empty table, never to an
//! error), and the defaulting rules fill in what the document left out:
//! `template` defaults to `article`, `type` to the lowercase extension of
//! the source path — a path without one is a hard failure — and `BODY` is
//! set to the body text last, so the body always wins over a
//! front-matter-declared `BODY`.

use vstd::prelude::*;
use vstd::string::StrSliceExecFns;
use vstd::string::StringExecFns;

use crate::errors::DocError;
use crate::meta::key_body;
use crate::meta::key_template;
use crate::meta::key_type;
use crate::meta::parse_front_matter;
use crate::meta::table_contains_key;
use crate::meta::table_insert_str;
use crate::meta::table_model;
use crate::meta::toml_table_of;
use crate::meta::MetaVal;
use crate::paths::extension_of;
use crate::paths::extension_spec;
use crate::split::split_front_matter;
use crate::split::split_spec;

verus! {

/// The lowercase form of an ASCII letter; any other character is itself.
pub open spec fn lower_char(c: char) -> char {
    if 65 <= c as int && c as int <= 90 {
        ((c as int + 32) as u8) as char
    } else {
        c
    }
}

/// A string, character by character, in ASCII lowercase.
pub open spec fn lower_seq(s: Seq<char>) -> Seq<char> {
    Seq::new(s.len(), |i: int| lower_char(s[i]))
}

/// Maps the letters `A` to `Z` to their lowercase forms and keeps every
/// other character.
fn ascii_lower(s: &str) -> (r: String)
    ensures
        r@ == lower_seq(s@),
{
    let len = s.unicode_len();
    let mut r = String::new();
    let mut i: usize = 0;
    while i < len
        invariant
            i <= len,
            len == s@.len(),
            r@ =~= lower_seq(s@).take(i as int),
        decreases len - i,
    {
        let c = s.get_char(i);
        let lowered: Option<&'static str> = match c {
            'A' => Some("a"),
            'B' => Some("b"),
            'C' => Some("c"),
            'D' => Some("d"),
            'E' => Some("e"),
            'F' => Some("f"),
            'G' => Some("g"),
            'H' => Some("h"),
            'I' => Some("i"),
            'J' => Some("j"),
            'K' => Some("k"),
            'L' => Some("l"),
            'M' => Some("m"),
            'N' => Some("n"),
            'O' => Some("o"),
            'P' => Some("p"),
            'Q' => Some("q"),
            'R' => Some("r"),
            'S' => Some("s"),
            'T' => Some("t"),
            'U' => Some("u"),
            'V' => Some("v"),
            'W' => Some("w"),
            'X' => Some("x"),
            'Y' => Some("y"),
            'Z' => Some("z"),
            _ => None,
        };
        proof {
            reveal_strlit("a");
            reveal_strlit("b");
            reveal_strlit("c");
            reveal_strlit("d");
            reveal_strlit("e");
            reveal_strlit("f");
            reveal_strlit("g");
            reveal_strlit("h");
            reveal_strlit("i");
            reveal_strlit("j");
            reveal_strlit("k");
            reveal_strlit("l");
            reveal_strlit("m");
            reveal_strlit("n");
            reveal_strlit("o");
            reveal_strlit("p");
            reveal_strlit("q");
            reveal_strlit("r");
            reveal_strlit("s");
            reveal_strlit("t");
            reveal_strlit("u");
            reveal_strlit("v");
            reveal_strlit("w");
            reveal_strlit("x");
            reveal_strlit("y");
            reveal_strlit("z");
        }
        match lowered {
            Some(piece) => {
                proof {
                    assert(piece@ =~= seq![lower_char(s@[i as int])]);
                }
                r.append(piece);
            },
            None => {
                let piece = s.substring_char(i, i + 1);
                proof {
                    assert(lower_char(s@[i as int]) == s@[i as int]);
                    assert(piece@ =~= seq![lower_char(s@[i as int])]);
                }
                r.append(piece);
            },
        }
        proof {
            assert(lower_seq(s@).take(i as int + 1) =~= lower_seq(s@).take(i as int) + seq![
                lower_char(s@[i as int]),
            ]);
        }
        i = i + 1;
    }
    proof {
        assert(lower_seq(s@).take(len as int) =~= lower_seq(s@));
    }
    r
}

/// The defaulting rules, applied to a parsed front-matter table: the
/// resulting rendering context, or the failure of a path with no
/// extension when one was needed.
pub open spec fn defaulted_model(
    parsed: Map<Seq<char>, MetaVal>,
    ext: Option<Seq<char>>,
    body: Seq<char>,
) -> Result<Map<Seq<char>, MetaVal>, DocError> {
    let with_template = if parsed.contains_key(key_template()) {
        parsed
    } else {
        parsed.insert(key_template(), MetaVal::Str("article"@))
    };
    if with_template.contains_key(key_type()) {
        Ok(with_template.insert(key_body(), MetaVal::Str(body)))
    } else {
        match ext {
            Some(e) => Ok(
                with_template.insert(key_type(), MetaVal::Str(lower_seq(e))).insert(
                    key_body(),
                    MetaVal::Str(body),
                ),
            ),
            None => Err(DocError::NoExtension),
        }
    }
}

/// What loading a document means: split, parse, default.
pub open spec fn loaded_model(content: Seq<char>, path: Seq<char>) -> Result<
    Map<Seq<char>, MetaVal>,
    DocError,
> {
    defaulted_model(toml_table_of(split_spec(content).0), extension_spec(path), split_spec(content).1)
}

/// After loading, the Metadata Table always holds the `template`, `type`
/// and `BODY` keys, and `BODY` holds the body text verbatim — whatever
/// the document's front matter did or did not declare.
pub proof fn lemma_loaded_keys(content: Seq<char>, path: Seq<char>)
    requires
        loaded_model(content, path) is Ok,
    ensures
        ({
            let m = loaded_model(content, path)->Ok_0;
            m.contains_key(key_template()) && m.contains_key(key_type()) && m.contains_key(
                key_body(),
            ) && m[key_body()] == MetaVal::Str(split_spec(content).1)
        }),
{
}

/// The three keys hold non-empty strings whenever the front matter gives
/// them non-empty strings or leaves them to the defaulting rules over a
/// path with a non-empty extension, and the body is non-empty. (A front
/// matter that itself binds `template` or `type` to something empty or of
/// another shape, a path such as `page.` whose extension is the empty
/// string, and an empty body are the inputs on which this cannot hold.)
pub proof fn lemma_loaded_keys_nonempty(content: Seq<char>, path: Seq<char>)
    requires
        loaded_model(content, path) is Ok,
        ({
            let parsed = toml_table_of(split_spec(content).0);
            (parsed.contains_key(key_template()) ==> (parsed[key_template()] matches MetaVal::Str(s)
                && s.len() > 0)) && (parsed.contains_key(key_type()) ==> (parsed[key_type()] matches
            MetaVal::Str(s) && s.len() > 0))
        }),
        match extension_spec(path) {
            Some(e) => !toml_table_of(split_spec(content).0).contains_key(key_type()) ==> e.len()
                > 0,
            None => true,
        },
        split_spec(content).1.len() > 0,
    ensures
        ({
            let m = loaded_model(content, path)->Ok_0;
            (m[key_template()] matches MetaVal::Str(s) && s.len() > 0) && (m[key_type()] matches
            MetaVal::Str(s) && s.len() > 0) && (m[key_body()] matches MetaVal::Str(s) && s.len()
                > 0)
        }),
{
    reveal_strlit("article");
    let parsed = toml_table_of(split_spec(content).0);
    if !parsed.contains_key(key_type()) {
        match extension_spec(path) {
            Some(e) => {
                assert(lower_seq(e).len() == e.len());
            },
            None => {},
        }
    }
}

/// Loads one document: the fully defaulted Metadata Table, ready to be a
/// rendering context. A document whose front matter has no delimiter line
/// loads from the empty table, so only the defaulted keys and `BODY` are
/// bound in it.
pub fn load_document(path: &str, content: &str) -> (r: Result<
    toml::map::Map<String, toml::Value>,
    DocError,
>)
    ensures
        match r {
            Ok(t) => loaded_model(content@, path@) == Ok::<_, DocError>(table_model(t)),
            Err(e) => loaded_model(content@, path@) == Err::<Map<Seq<char>, MetaVal>, _>(e),
        },
        (split_spec(content@).0.len() == 0 && r is Ok) ==> defaulted_model(
            Map::empty(),
            extension_spec(path@),
            split_spec(content@).1,
        ) == Ok::<_, DocError>(table_model(r->Ok_0)),
{
    let (meta, body) = split_front_matter(content);
    let mut table = parse_front_matter(meta.as_str());
    if !table_contains_key(&table, "template") {
        table_insert_str(&mut table, "template", "article");
    }
    if !table_contains_key(&table, "type") {
        match extension_of(path) {
            Some(ext) => {
                let low = ascii_lower(ext.as_str());
                table_insert_str(&mut table, "type", low.as_str());
            },
            None => {
                return Err(DocError::NoExtension);
            },
        }
    }
    table_insert_str(&mut table, "BODY", body.as_str());
    Ok(table)
}

} // verus!
