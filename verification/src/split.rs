//! Front-Matter Splitter: cuts a raw document at the first occurrence of
//! the delimiter line. Text before the delimiter is the front matter, text
//! after it the body. A document without the delimiter is all body and has
//! empty front matter; that is a bare document, not an error.

use vstd::prelude::*;
use vstd::string::StrSliceExecFns;

verus! {

/// The delimiter line that ends a front-matter block.
pub open spec fn delim() -> Seq<char> {
    "*** ssg ***\n"@
}

/// The delimiter stands in `s` at position `i`.
pub open spec fn has_delim_at(s: Seq<char>, i: int) -> bool {
    0 <= i && i + delim().len() <= s.len() && s.subrange(i, i + delim().len() as int) == delim()
}

/// Position of the first delimiter occurrence in `s`, if any.
pub open spec fn delim_index(s: Seq<char>) -> Option<int>
    decreases s.len(),
{
    if delim().len() <= s.len() && s.take(delim().len() as int) == delim() {
        Some(0int)
    } else if s.len() == 0 {
        None
    } else {
        match delim_index(s.skip(1)) {
            Some(i) => Some(i + 1),
            None => None,
        }
    }
}

/// What splitting a document means: `(front matter, body)`.
pub open spec fn split_spec(s: Seq<char>) -> (Seq<char>, Seq<char>) {
    match delim_index(s) {
        Some(i) => (s.take(i), s.skip(i + delim().len() as int)),
        None => (Seq::empty(), s),
    }
}

/// An occurrence one past the head of `s` is an occurrence in its tail.
proof fn lemma_delim_shift(s: Seq<char>, j: int)
    requires
        s.len() >= 1,
        0 <= j,
    ensures
        has_delim_at(s.skip(1), j) <==> has_delim_at(s, j + 1),
{
    let d = delim().len() as int;
    if j + 1 + d <= s.len() {
        assert(s.skip(1).subrange(j, j + d) =~= s.subrange(j + 1, j + 1 + d));
    }
}

/// `delim_index` names the first occurrence: the delimiter stands there
/// and nowhere earlier, and stands nowhere at all when it is `None`.
pub proof fn lemma_delim_index(s: Seq<char>)
    ensures
        match delim_index(s) {
            Some(i) => has_delim_at(s, i) && (forall|j: int| 0 <= j < i ==> !has_delim_at(s, j)),
            None => forall|j: int| !has_delim_at(s, j),
        },
    decreases s.len(),
{
    let d = delim().len() as int;
    if d <= s.len() && s.take(d) == delim() {
    } else if s.len() == 0 {
    } else {
        let t = s.skip(1);
        lemma_delim_index(t);
        assert(!has_delim_at(s, 0));
        match delim_index(t) {
            Some(i) => {
                lemma_delim_shift(s, i);
                assert forall|j: int| 0 <= j < i + 1 implies !has_delim_at(s, j) by {
                    if 1 <= j {
                        lemma_delim_shift(s, j - 1);
                    }
                }
            },
            None => {
                assert forall|j: int| !has_delim_at(s, j) by {
                    if 1 <= j {
                        lemma_delim_shift(s, j - 1);
                    }
                }
            },
        }
    }
}

/// A first occurrence at `i` pins `delim_index` to `Some(i)`.
proof fn lemma_delim_index_found(s: Seq<char>, i: int)
    requires
        has_delim_at(s, i),
        forall|j: int| 0 <= j < i ==> !has_delim_at(s, j),
    ensures
        delim_index(s) == Some(i),
{
    lemma_delim_index(s);
    match delim_index(s) {
        Some(k) => {
            if k < i {
                assert(!has_delim_at(s, k));
            } else if k > i {
                assert(!has_delim_at(s, i));
            }
        },
        None => {
            assert(!has_delim_at(s, i));
        },
    }
}

/// No occurrence anywhere pins `delim_index` to `None`.
proof fn lemma_delim_index_none(s: Seq<char>)
    requires
        forall|j: int| !has_delim_at(s, j),
    ensures
        delim_index(s) is None,
{
    lemma_delim_index(s);
    match delim_index(s) {
        Some(k) => {
            assert(!has_delim_at(s, k));
        },
        None => {},
    }
}

/// A bare document — one in which the delimiter line stands nowhere — is
/// all body: the front matter is empty and the body is the whole text, so
/// by the loader's contract its metadata is the empty table before the
/// defaulting rules run.
pub proof fn lemma_bare_document(content: Seq<char>)
    requires
        forall|i: int| !has_delim_at(content, i),
    ensures
        split_spec(content).0 =~= Seq::<char>::empty(),
        split_spec(content).1 == content,
{
    lemma_delim_index_none(content);
}

/// Splits a raw document into front-matter text and body text at the
/// first delimiter line; without one, the whole document is the body.
pub fn split_front_matter(content: &str) -> (r: (String, String))
    ensures
        r.0@ == split_spec(content@).0,
        r.1@ == split_spec(content@).1,
{
    let d = "*** ssg ***\n";
    proof {
        reveal_strlit("*** ssg ***\n");
    }
    let len = content.unicode_len();
    let dlen = d.unicode_len();
    if dlen <= len {
        let mut i: usize = 0;
        while i <= len - dlen
            invariant
                d@ == delim(),
                dlen == delim().len(),
                1 <= dlen,
                len == content@.len(),
                dlen <= len,
                i <= len - dlen + 1,
                forall|j: int| 0 <= j < i ==> !has_delim_at(content@, j),
            decreases len - dlen - i + 1,
        {
            let mut k: usize = 0;
            let mut matched = true;
            while k < dlen
                invariant
                    dlen == delim().len(),
                    len == content@.len(),
                    d@ == delim(),
                    i + dlen <= len,
                    k <= dlen,
                    matched ==> forall|m: int| 0 <= m < k ==> content@[i + m] == delim()[m],
                    !matched ==> !has_delim_at(content@, i as int),
                decreases dlen - k,
            {
                if content.get_char(i + k) != d.get_char(k) {
                    proof {
                        let sub = content@.subrange(i as int, i as int + delim().len() as int);
                        assert(sub[k as int] == content@[i + k]);
                    }
                    matched = false;
                }
                k = k + 1;
            }
            if matched {
                proof {
                    assert(content@.subrange(i as int, i as int + delim().len() as int)
                        =~= delim());
                    lemma_delim_index_found(content@, i as int);
                }
                let meta = content.substring_char(0, i).to_owned();
                let body = content.substring_char(i + dlen, len).to_owned();
                return (meta, body);
            }
            i = i + 1;
        }
        proof {
            assert forall|j: int| !has_delim_at(content@, j) by {
                if 0 <= j && j + delim().len() <= content@.len() {
                    assert(!has_delim_at(content@, j));
                }
            }
            lemma_delim_index_none(content@);
        }
        (String::new(), content.to_owned())
    } else {
        proof {
            assert forall|j: int| !has_delim_at(content@, j) by {}
            lemma_delim_index_none(content@);
        }
        (String::new(), content.to_owned())
    }
}

} // verus!
