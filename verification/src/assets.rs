//! Asset Resolver: reads a rendered document's Metadata Table for the
//! optional `stylesheet`, `script` and `assets` keys and yields the paths
//! to copy, in copy order: the stylesheet, the script, then each asset.
//!
//! `stylesheet` and `script` each name one path; a non-string value under
//! them is silently passed over. `assets` may name one path or an array
//! of them — non-string items of the array are passed over — and any other
//! shape under `assets` is the fatal `InvalidAssetsShape`.

use vstd::prelude::*;

use crate::errors::DocError;
use crate::meta::key_assets;
use crate::meta::key_script;
use crate::meta::key_stylesheet;
use crate::meta::table_get;
use crate::meta::table_model;
use crate::meta::value_as_array;
use crate::meta::value_as_str;
use crate::meta::MetaVal;

verus! {

/// The strings among an array's items, in order.
pub open spec fn string_items(items: Seq<MetaVal>) -> Seq<Seq<char>>
    decreases items.len(),
{
    if items.len() == 0 {
        Seq::empty()
    } else {
        string_items(items.drop_last()) + (match items.last() {
            MetaVal::Str(s) => seq![s],
            _ => Seq::empty(),
        })
    }
}

/// The path a single-path copy key contributes: its string value, if the
/// key is bound to one.
pub open spec fn copy_key_spec(m: Map<Seq<char>, MetaVal>, k: Seq<char>) -> Seq<Seq<char>> {
    if m.contains_key(k) {
        match m[k] {
            MetaVal::Str(s) => seq![s],
            _ => Seq::empty(),
        }
    } else {
        Seq::empty()
    }
}

/// The paths the `assets` key contributes, or the failure of a key of the
/// wrong shape.
pub open spec fn assets_key_spec(m: Map<Seq<char>, MetaVal>) -> Result<Seq<Seq<char>>, DocError> {
    if !m.contains_key(key_assets()) {
        Ok(Seq::empty())
    } else {
        match m[key_assets()] {
            MetaVal::Str(s) => Ok(seq![s]),
            MetaVal::List(items) => Ok(string_items(items)),
            MetaVal::Other(_) => Err(DocError::InvalidAssetsShape),
        }
    }
}

/// Every path a document's table asks to have copied, in copy order.
pub open spec fn asset_paths_spec(m: Map<Seq<char>, MetaVal>) -> Result<
    Seq<Seq<char>>,
    DocError,
> {
    match assets_key_spec(m) {
        Ok(list) => Ok(copy_key_spec(m, key_stylesheet()) + copy_key_spec(m, key_script()) + list),
        Err(e) => Err(e),
    }
}

/// Collects the paths to copy for one document: exactly `asset_paths_spec`
/// of its table, failing exactly when `assets` has the wrong shape.
pub fn asset_paths(table: &toml::map::Map<String, toml::Value>) -> (r: Result<Vec<String>, DocError>)
    ensures
        ({
            let spec_r = asset_paths_spec(table_model(*table));
            match r {
                Ok(v) => spec_r matches Ok(l) && v@.len() == l.len() && (forall|i: int|
                    0 <= i < l.len() ==> v@[i]@ == l[i]),
                Err(e) => spec_r == Err::<Seq<Seq<char>>, DocError>(e),
            }
        }),
{
    let ghost m = table_model(*table);
    let mut out: Vec<String> = Vec::new();
    match table_get(table, "stylesheet") {
        Some(v) => match value_as_str(v) {
            Some(s) => out.push(s.to_owned()),
            None => {},
        },
        None => {},
    }
    proof {
        let head = copy_key_spec(m, key_stylesheet());
        assert(out@.len() == head.len() && forall|i: int| 0 <= i < head.len() ==> out@[i]@ == head[i]);
    }
    match table_get(table, "script") {
        Some(v) => match value_as_str(v) {
            Some(s) => out.push(s.to_owned()),
            None => {},
        },
        None => {},
    }
    let ghost pre = copy_key_spec(m, key_stylesheet()) + copy_key_spec(m, key_script());
    proof {
        assert(out@.len() == pre.len() && forall|i: int| 0 <= i < pre.len() ==> out@[i]@ == pre[i]);
    }
    match table_get(table, "assets") {
        None => {
            proof {
                assert(asset_paths_spec(m) matches Ok(l) && l =~= pre);
            }
        },
        Some(v) => match value_as_str(v) {
            Some(s) => {
                out.push(s.to_owned());
                proof {
                    assert(asset_paths_spec(m) matches Ok(l) && l =~= pre.push(s@));
                }
            },
            None => match value_as_array(v) {
                Some(items) => {
                    let ghost item_models = Seq::new(items@.len(), |i: int| value_model_of(items@, i));
                    proof {
                        assert(item_models =~= Seq::new(
                            items@.len(),
                            |i: int| crate::meta::value_model(items@[i]),
                        ));
                    }
                    let mut i: usize = 0;
                    while i < items.len()
                        invariant
                            i <= items@.len(),
                            m == table_model(*table),
                            m.contains_key(key_assets()),
                            m[key_assets()] == MetaVal::List(item_models),
                            item_models.len() == items@.len(),
                            forall|j: int|
                                0 <= j < items@.len() ==> item_models[j] == value_model_of(
                                    items@,
                                    j,
                                ),
                            out@.len() == pre.len() + string_items(item_models.take(i as int)).len(),
                            forall|j: int|
                                0 <= j < pre.len() ==> out@[j]@ == pre[j],
                            forall|j: int|
                                pre.len() <= j < out@.len() ==> out@[j]@ == string_items(
                                    item_models.take(i as int),
                                )[j - pre.len()],
                        decreases items@.len() - i,
                    {
                        proof {
                            assert(item_models.take(i as int + 1).drop_last() =~= item_models.take(
                                i as int,
                            ));
                        }
                        match value_as_str(&items[i]) {
                            Some(s) => {
                                out.push(s.to_owned());
                            },
                            None => {},
                        }
                        i = i + 1;
                    }
                    proof {
                        assert(item_models.take(items@.len() as int) =~= item_models);
                        let l = pre + string_items(item_models);
                        assert(asset_paths_spec(m) == Ok::<Seq<Seq<char>>, DocError>(l));
                        assert(forall|j: int|
                            0 <= j < string_items(item_models).len() ==> l[pre.len() + j]
                                == string_items(item_models)[j]);
                    }
                },
                None => {
                    return Err(DocError::InvalidAssetsShape);
                },
            },
        },
    }
    Ok(out)
}

/// The shape of one item of an array of toml values.
pub open spec fn value_model_of(items: Seq<toml::Value>, i: int) -> MetaVal {
    crate::meta::value_model(items[i])
}

} // verus!
