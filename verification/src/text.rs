//! Character-level text utilities: locating a separator, splitting a string
//! on a separator, string equality, and a substring-containment predicate.

use vstd::prelude::*;

verus! {

/// Index of the first occurrence of `sep` in `s`, if any.
pub open spec fn find_sep(s: Seq<char>, sep: char) -> Option<int>
    decreases s.len(),
{
    if s.len() == 0 {
        None
    } else if s[0] == sep {
        Some(0int)
    } else {
        match find_sep(s.drop_first(), sep) {
            Option::None => None,
            Option::Some(i) => Some(i + 1),
        }
    }
}

/// `find_sep` returns the least index holding `sep`, or `None` when `sep`
/// does not occur.
pub proof fn lemma_find_sep(s: Seq<char>, sep: char)
    ensures
        match find_sep(s, sep) {
            Option::Some(i) => 0 <= i < s.len() && s[i] == sep && (forall|j: int|
                0 <= j < i ==> s[j] != sep),
            Option::None => forall|j: int| 0 <= j < s.len() ==> s[j] != sep,
        },
    decreases s.len(),
{
    if s.len() == 0 {
    } else if s[0] == sep {
    } else {
        lemma_find_sep(s.drop_first(), sep);
        let t = s.drop_first();
        match find_sep(t, sep) {
            Option::Some(i) => {
                assert(s[i + 1] == t[i]);
                assert forall|j: int| 0 <= j < i + 1 implies s[j] != sep by {
                    if j > 0 {
                        assert(t[j - 1] != sep);
                    }
                }
            },
            Option::None => {
                assert forall|j: int| 0 <= j < s.len() implies s[j] != sep by {
                    if j > 0 {
                        assert(t[j - 1] != sep);
                    }
                }
            },
        }
    }
}

/// The parts of `s` between occurrences of `sep`: always at least one part,
/// and one more part for each occurrence of `sep`.
pub open spec fn split_seq(s: Seq<char>, sep: char) -> Seq<Seq<char>>
    decreases s.len(),
    via split_seq_decreases
{
    match find_sep(s, sep) {
        Option::None => seq![s],
        Option::Some(i) => seq![s.take(i)] + split_seq(s.skip(i + 1), sep),
    }
}

#[via_fn]
proof fn split_seq_decreases(s: Seq<char>, sep: char) {
    lemma_find_sep(s, sep);
}

/// The exec counterpart of `find_sep`.
pub fn find_char(s: &str, sep: char) -> (r: Option<usize>)
    ensures
        match r {
            Option::Some(i) => find_sep(s@, sep) == Some(i as int),
            Option::None => find_sep(s@, sep) is None,
        },
{
    let n = s.unicode_len();
    let mut i: usize = 0;
    while i < n
        invariant
            n == s@.len(),
            0 <= i <= n,
            forall|j: int| 0 <= j < i ==> s@[j] != sep,
        decreases n - i,
    {
        if s.get_char(i) == sep {
            proof {
                lemma_find_sep(s@, sep);
                match find_sep(s@, sep) {
                    Option::Some(k) => {
                        assert(!(k < i)) by {
                            if k < i {
                                assert(s@[k] != sep);
                            }
                        }
                        assert(!(i < k)) by {
                            if i < k {
                                assert(s@[i as int] != sep);
                            }
                        }
                    },
                    Option::None => {
                        assert(s@[i as int] != sep);
                    },
                }
            }
            return Some(i);
        }
        i += 1;
    }
    proof {
        lemma_find_sep(s@, sep);
    }
    None
}

/// The exec counterpart of `split_seq`.
pub fn split_str(s: &str, sep: char) -> (r: Vec<String>)
    ensures
        r@.map_values(|t: String| t@) == split_seq(s@, sep),
    decreases s@.len(),
{
    match find_char(s, sep) {
        Option::None => {
            let mut v: Vec<String> = Vec::new();
            v.push(s.to_owned());
            proof {
                assert(v@.map_values(|t: String| t@) =~= seq![s@]);
            }
            v
        },
        Option::Some(i) => {
            proof {
                lemma_find_sep(s@, sep);
            }
            let n = s.unicode_len();
            let head = s.substring_char(0, i).to_owned();
            let tail = s.substring_char(i + 1, n);
            proof {
                assert(tail@ =~= s@.skip(i + 1));
            }
            let mut rest = split_str(tail, sep);
            rest.insert(0, head);
            proof {
                assert(rest@.map_values(|t: String| t@) =~= seq![s@.take(i as int)]
                    + split_seq(s@.skip(i + 1), sep));
            }
            rest
        },
    }
}

/// Character-for-character string equality, proved against the views.
pub fn str_eq(a: &str, b: &str) -> (r: bool)
    ensures
        r == (a@ == b@),
{
    let na = a.unicode_len();
    let nb = b.unicode_len();
    if na != nb {
        return false;
    }
    let mut i: usize = 0;
    while i < na
        invariant
            na == a@.len(),
            na == b@.len(),
            0 <= i <= na,
            forall|j: int| 0 <= j < i ==> a@[j] == b@[j],
        decreases na - i,
    {
        if a.get_char(i) != b.get_char(i) {
            return false;
        }
        i += 1;
    }
    proof {
        assert(a@ =~= b@);
    }
    true
}

/// `hay` holds `needle` as a contiguous run of characters.
pub open spec fn contains_seq(hay: Seq<char>, needle: Seq<char>) -> bool {
    exists|k: int|
        0 <= k && k + needle.len() <= hay.len() && #[trigger] hay.subrange(k, k + needle.len())
            == needle
}

} // verus!
