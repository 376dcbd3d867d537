//! Relative-path algebra for the mirrored trees.
//!
//! A path is a string of segments separated by `/`, with no trailing
//! separator; the empty string names the tree's root. Joining with the
//! root on either side leaves the other path unchanged.

use vstd::prelude::*;
use vstd::string::StrSliceExecFns;
use vstd::string::StringExecFns;

verus! {

/// What joining two relative paths means: the empty path is the root and
/// is absorbed, otherwise a single separator stands between the two.
pub open spec fn join_path_spec(a: Seq<char>, b: Seq<char>) -> Seq<char> {
    if a.len() == 0 {
        b
    } else if b.len() == 0 {
        a
    } else {
        a + seq!['/'] + b
    }
}

/// Joins two relative paths.
pub fn join_path(a: &str, b: &str) -> (r: String)
    ensures
        r@ == join_path_spec(a@, b@),
{
    if a.unicode_len() == 0 {
        b.to_owned()
    } else if b.unicode_len() == 0 {
        a.to_owned()
    } else {
        let mut r = a.to_owned();
        r.append("/");
        r.append(b);
        proof {
            reveal_strlit("/");
            assert("/"@ =~= seq!['/']);
            assert(r@ =~= a@ + seq!['/'] + b@);
        }
        r
    }
}

/// One input entry together with the two roots it is mirrored between:
/// `file` is the entry's path relative to both roots.
#[derive(Debug, Clone)]
pub struct FileHandle {
    /// Path of the entry, relative to each root.
    pub file: String,
    /// Root of the input tree.
    pub in_dir: String,
    /// Root of the output tree.
    pub out_dir: String,
}

impl FileHandle {
    /// Where the entry lives in the input tree.
    pub fn in_file(&self) -> (r: String)
        ensures
            r@ == join_path_spec(self.in_dir@, self.file@),
    {
        join_path(self.in_dir.as_str(), self.file.as_str())
    }

    /// Where the entry's mirror lives in the output tree.
    pub fn out_file(&self) -> (r: String)
        ensures
            r@ == join_path_spec(self.out_dir@, self.file@),
    {
        join_path(self.out_dir.as_str(), self.file.as_str())
    }

    /// The handle of an asset this document references: the asset's path
    /// is resolved relative to the document's own directory, not the
    /// input root, and mirrored between the same two roots.
    pub fn asset_handle(&self, asset: &str) -> (r: FileHandle)
        ensures
            r.file@ == join_path_spec(parent_spec(self.file@), asset@),
            r.in_dir@ == self.in_dir@,
            r.out_dir@ == self.out_dir@,
    {
        let dir = parent_of(self.file.as_str());
        FileHandle {
            file: join_path(dir.as_str(), asset),
            in_dir: self.in_dir.clone(),
            out_dir: self.out_dir.clone(),
        }
    }
}

/// Index of the last occurrence of `c` in `s`, if any.
pub open spec fn last_index_of(s: Seq<char>, c: char) -> Option<int>
    decreases s.len(),
{
    if s.len() == 0 {
        None
    } else if s[s.len() - 1] == c {
        Some(s.len() - 1)
    } else {
        last_index_of(s.take(s.len() - 1), c)
    }
}

/// `last_index_of` names the last occurrence: `c` stands there and nowhere later.
pub proof fn lemma_last_index_of(s: Seq<char>, c: char)
    ensures
        match last_index_of(s, c) {
            Some(i) => 0 <= i < s.len() && s[i] == c && (forall|j: int| i < j < s.len() ==> s[j] != c),
            None => forall|j: int| 0 <= j < s.len() ==> s[j] != c,
        },
    decreases s.len(),
{
    if s.len() == 0 {
    } else if s[s.len() - 1] == c {
    } else {
        let t = s.take(s.len() - 1);
        lemma_last_index_of(t, c);
        assert(forall|j: int| 0 <= j < t.len() ==> t[j] == s[j]);
    }
}

/// Finds the last occurrence of `c` in `s`.
pub fn find_last(s: &str, c: char) -> (r: Option<usize>)
    ensures
        match r {
            Some(i) => last_index_of(s@, c) == Some(i as int),
            None => last_index_of(s@, c) is None,
        },
{
    proof {
        lemma_last_index_of(s@, c);
    }
    let len = s.unicode_len();
    let mut i = len;
    while i > 0
        invariant
            i <= len,
            len == s@.len(),
            forall|j: int| i <= j < s@.len() ==> s@[j] != c,
        decreases i,
    {
        i = i - 1;
        if s.get_char(i) == c {
            proof {
                lemma_last_index_found(s@, c, i as int);
            }
            return Some(i);
        }
    }
    proof {
        lemma_last_index_none(s@, c);
    }
    None
}

proof fn lemma_last_index_found(s: Seq<char>, c: char, i: int)
    requires
        0 <= i < s.len(),
        s[i] == c,
        forall|j: int| i < j < s.len() ==> s[j] != c,
    ensures
        last_index_of(s, c) == Some(i),
{
    lemma_last_index_of(s, c);
    match last_index_of(s, c) {
        Some(k) => {
            if k < i {
                assert(s[i] != c);
            } else if k > i {
                assert(s[k] != c);
            }
        },
        None => {
            assert(s[i] != c);
        },
    }
}

proof fn lemma_last_index_none(s: Seq<char>, c: char)
    requires
        forall|j: int| 0 <= j < s.len() ==> s[j] != c,
    ensures
        last_index_of(s, c) is None,
{
    lemma_last_index_of(s, c);
    match last_index_of(s, c) {
        Some(k) => {
            assert(s[k] != c);
        },
        None => {},
    }
}

/// The file-name part of a path: everything after the last separator,
/// or the whole path when it has none.
pub open spec fn file_name_spec(p: Seq<char>) -> Seq<char> {
    match last_index_of(p, '/') {
        Some(i) => p.skip(i + 1),
        None => p,
    }
}

/// The extension of a path's file name: what follows the last dot,
/// none when the name has no dot or only a leading one (a hidden file).
pub open spec fn extension_spec(p: Seq<char>) -> Option<Seq<char>> {
    let name = file_name_spec(p);
    match last_index_of(name, '.') {
        Some(q) => if q == 0 {
            None
        } else {
            Some(name.skip(q + 1))
        },
        None => None,
    }
}

/// The stem of a path's file name: the name with its extension removed.
pub open spec fn file_stem_spec(p: Seq<char>) -> Seq<char> {
    let name = file_name_spec(p);
    match last_index_of(name, '.') {
        Some(q) => if q == 0 {
            name
        } else {
            name.take(q)
        },
        None => name,
    }
}

/// The file-name part of a path.
pub fn file_name_of(p: &str) -> (r: String)
    ensures
        r@ == file_name_spec(p@),
{
    let len = p.unicode_len();
    proof {
        lemma_last_index_of(p@, '/');
    }
    match find_last(p, '/') {
        Some(i) => p.substring_char(i + 1, len).to_owned(),
        None => p.to_owned(),
    }
}

/// The extension of a path's file name.
pub fn extension_of(p: &str) -> (r: Option<String>)
    ensures
        match r {
            Some(e) => extension_spec(p@) == Some(e@),
            None => extension_spec(p@) is None,
        },
{
    let name = file_name_of(p);
    let name_len = name.as_str().unicode_len();
    proof {
        lemma_last_index_of(name@, '.');
    }
    match find_last(name.as_str(), '.') {
        Some(q) => if q == 0 {
            None
        } else {
            Some(name.as_str().substring_char(q + 1, name_len).to_owned())
        },
        None => None,
    }
}

/// The stem of a path's file name.
pub fn file_stem_of(p: &str) -> (r: String)
    ensures
        r@ == file_stem_spec(p@),
{
    let name = file_name_of(p);
    proof {
        lemma_last_index_of(name@, '.');
    }
    match find_last(name.as_str(), '.') {
        Some(q) => if q == 0 {
            name
        } else {
            name.as_str().substring_char(0, q).to_owned()
        },
        None => name,
    }
}

/// The directory part of a path: everything before the last separator,
/// or the root when it has none.
pub open spec fn parent_spec(p: Seq<char>) -> Seq<char> {
    match last_index_of(p, '/') {
        Some(i) => p.take(i),
        None => Seq::empty(),
    }
}

/// The directory part of a path.
pub fn parent_of(p: &str) -> (r: String)
    ensures
        r@ == parent_spec(p@),
{
    proof {
        lemma_last_index_of(p@, '/');
    }
    match find_last(p, '/') {
        Some(i) => p.substring_char(0, i).to_owned(),
        None => String::new(),
    }
}

/// What stripping a leading tree root from a path means: the root path
/// strips to the path itself, the path strips from itself to the root,
/// and a proper prefix must end at a separator.
pub open spec fn strip_prefix_spec(p: Seq<char>, pre: Seq<char>) -> Option<Seq<char>> {
    if pre.len() == 0 {
        Some(p)
    } else if p == pre {
        Some(Seq::empty())
    } else if p.len() > pre.len() && p.take(pre.len() as int) == pre && p[pre.len() as int]
        == '/' {
        Some(p.skip(pre.len() as int + 1))
    } else {
        None
    }
}

/// Strips a leading tree root from a path, yielding the root-relative path.
pub fn strip_path_prefix(p: &str, pre: &str) -> (r: Option<String>)
    ensures
        match r {
            Some(rest) => strip_prefix_spec(p@, pre@) == Some(rest@),
            None => strip_prefix_spec(p@, pre@) is None,
        },
{
    let p_len = p.unicode_len();
    let pre_len = pre.unicode_len();
    if pre_len == 0 {
        return Some(p.to_owned());
    }
    if p_len < pre_len {
        proof {
            assert(p@ != pre@);
        }
        return None;
    }
    let mut i: usize = 0;
    while i < pre_len
        invariant
            i <= pre_len,
            pre_len <= p_len,
            p_len == p@.len(),
            pre_len == pre@.len(),
            forall|j: int| 0 <= j < i ==> p@[j] == pre@[j],
        decreases pre_len - i,
    {
        if p.get_char(i) != pre.get_char(i) {
            proof {
                assert(p@.take(pre@.len() as int)[i as int] != pre@[i as int]);
                if p@ == pre@ {
                    assert(p@[i as int] == pre@[i as int]);
                }
            }
            return None;
        }
        i = i + 1;
    }
    if p_len == pre_len {
        proof {
            assert(p@ =~= pre@);
        }
        Some(String::new())
    } else if p.get_char(pre_len) == '/' {
        proof {
            assert(p@.take(pre@.len() as int) =~= pre@);
        }
        Some(p.substring_char(pre_len + 1, p_len).to_owned())
    } else {
        proof {
            assert(p@ != pre@);
        }
        None
    }
}

} // verus!

