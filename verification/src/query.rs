//! Query-string binding: the optional `action_type` field, decoded against
//! the variant names with deliberate tolerance — any absent, unknown or
//! malformed value resolves to no action instead of a binding failure.

use vstd::prelude::*;
use crate::text::{find_sep, split_seq, find_char, split_str, str_eq};

verus! {

/// The action a greeting request may ask for.
#[derive(Clone, Copy, Debug, PartialEq, Eq, Structural)]
pub enum ActionType {
    Sleep,
    WakeUp,
}

/// The bound form of the query string: an optional action.
#[derive(Clone, Copy, Debug, PartialEq, Eq, Structural)]
pub struct Action {
    pub action_type: Option<ActionType>,
}

/// The raw key of a `key=value` query component: the text before the first
/// `'='`, or the whole component when it has no `'='`.
pub open spec fn pair_key(p: Seq<char>) -> Seq<char> {
    match find_sep(p, '=') {
        Option::None => p,
        Option::Some(i) => p.take(i),
    }
}

/// The raw value of a `key=value` query component: the text after the first
/// `'='`; a component without `'='` carries no value.
pub open spec fn pair_val(p: Seq<char>) -> Option<Seq<char>> {
    match find_sep(p, '=') {
        Option::None => None,
        Option::Some(i) => Some(p.skip(i + 1)),
    }
}

/// Decodes one raw value against the variant names. Everything that is not
/// exactly a variant name — a missing value included — is tolerated as no
/// action.
pub open spec fn decode_action(v: Option<Seq<char>>) -> Option<ActionType> {
    if v == Some("Sleep"@) {
        Some(ActionType::Sleep)
    } else if v == Some("WakeUp"@) {
        Some(ActionType::WakeUp)
    } else {
        None
    }
}

/// The action named by the first `action_type` component, if any.
pub open spec fn action_from_pairs(ps: Seq<Seq<char>>) -> Option<ActionType>
    decreases ps.len(),
{
    if ps.len() == 0 {
        None
    } else if pair_key(ps[0]) == "action_type"@ {
        decode_action(pair_val(ps[0]))
    } else {
        action_from_pairs(ps.drop_first())
    }
}

/// What binding a whole query string yields: its components are the parts
/// between `'&'` separators, and the first `action_type` component decides.
pub open spec fn spec_query_action(q: Seq<char>) -> Option<ActionType> {
    action_from_pairs(split_seq(q, '&'))
}

/// Binds the raw query string to the optional action: the exec counterpart
/// of `spec_query_action`. It never fails; tolerance maps every undecodable
/// component to `None`.
pub fn query_action(q: &str) -> (r: Option<ActionType>)
    ensures
        r == spec_query_action(q@),
{
    let parts = split_str(q, '&');
    let ghost ps = split_seq(q@, '&');
    let n = parts.len();
    proof {
        assert(ps.skip(0) =~= ps);
        assert(ps.len() == n);
    }
    let mut i: usize = 0;
    while i < n
        invariant
            ps == split_seq(q@, '&'),
            parts@.map_values(|t: String| t@) == ps,
            n == parts.len(),
            n == ps.len(),
            0 <= i <= n,
            action_from_pairs(ps) == action_from_pairs(ps.skip(i as int)),
        decreases n - i,
    {
        let p: &String = &parts[i];
        proof {
            assert(ps[i as int] == p@);
            assert(ps.skip(i as int).len() > 0);
            assert(ps.skip(i as int)[0] == p@);
            assert(ps.skip(i as int).drop_first() =~= ps.skip(i + 1));
        }
        match find_char(p.as_str(), '=') {
            Option::None => {
                if str_eq(p.as_str(), "action_type") {
                    assert(pair_key(p@) == "action_type"@);
                    assert(action_from_pairs(ps.skip(i as int)) == decode_action(pair_val(p@)));
                    assert(decode_action(pair_val(p@)) is None);
                    return None;
                }
                assert(pair_key(p@) != "action_type"@);
            },
            Option::Some(j) => {
                proof {
                    crate::text::lemma_find_sep(p@, '=');
                }
                let key = p.as_str().substring_char(0, j);
                proof {
                    assert(key@ =~= p@.take(j as int));
                }
                if str_eq(key, "action_type") {
                    let len = p.as_str().unicode_len();
                    let val = p.as_str().substring_char(j + 1, len);
                    proof {
                        assert(val@ =~= p@.skip(j + 1));
                        assert(pair_val(p@) == Some(val@));
                        assert(action_from_pairs(ps.skip(i as int)) == decode_action(
                            pair_val(p@),
                        ));
                    }
                    if str_eq(val, "Sleep") {
                        return Some(ActionType::Sleep);
                    } else if str_eq(val, "WakeUp") {
                        return Some(ActionType::WakeUp);
                    } else {
                        return None;
                    }
                }
                assert(pair_key(p@) != "action_type"@);
            },
        }
        i += 1;
    }
    proof {
        assert(ps.skip(n as int) =~= Seq::<Seq<char>>::empty());
    }
    None
}

/// Binds the raw query string to an `Action` value.
pub fn bind_query(q: &str) -> (a: Action)
    ensures
        a.action_type == spec_query_action(q@),
{
    Action { action_type: query_action(q) }
}

} // verus!
