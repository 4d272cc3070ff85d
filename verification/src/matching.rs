//! Match keys: the normalized form of a code used to correlate user
//! entries with fetched quotes.
//!
//! A user may type `600519`, `x1.600519`, or lower-case letters, while
//! the provider always returns its own canonical spelling. Both sides
//! are therefore reduced to a key — manual marker stripped, the part
//! after the last market-separator `.` taken, ASCII upper-cased — and
//! compared for exact equality.

use vstd::prelude::*;
use vstd::string::*;

use crate::chars::{spec_upper, upper_char};

verus! {

/// The code without a leading manual-mode marker (`x` or `X`).
pub open spec fn spec_strip_marker(s: Seq<char>) -> Seq<char> {
    if s.len() > 0 && (s[0] == 'x' || s[0] == 'X') {
        s.subrange(1, s.len() as int)
    } else {
        s
    }
}

/// The part of `s` after its last `.`; all of `s` when it has none.
/// A trailing `.` therefore yields the empty key.
pub open spec fn spec_tail_key(s: Seq<char>) -> Seq<char>
    decreases s.len(),
{
    if s.len() == 0 {
        Seq::empty()
    } else if s.last() == '.' {
        Seq::empty()
    } else {
        spec_tail_key(s.drop_last()).push(s.last())
    }
}

/// ASCII upper-casing, character by character.
pub open spec fn spec_upper_seq(s: Seq<char>) -> Seq<char> {
    s.map_values(|c: char| spec_upper(c))
}

/// The match key of a code: marker stripped, the part after the last
/// market separator taken, ASCII upper-cased.
pub open spec fn spec_match_key(s: Seq<char>) -> Seq<char> {
    spec_upper_seq(spec_tail_key(spec_strip_marker(s)))
}

/// `spec_tail_key` names a suffix: splitting `s` anywhere to the right
/// of its last `.` leaves the key of the prefix plus the rest.
proof fn lemma_tail_key_split(s: Seq<char>, i: int)
    requires
        0 <= i <= s.len(),
        forall|j: int| i <= j < s.len() ==> s[j] != '.',
    ensures
        spec_tail_key(s) =~= spec_tail_key(s.subrange(0, i)) + s.subrange(i, s.len() as int),
    decreases s.len() - i,
{
    if i == s.len() {
        assert(s.subrange(0, i) =~= s);
        assert(s.subrange(i, s.len() as int) =~= Seq::<char>::empty());
    } else {
        lemma_tail_key_split(s, i + 1);
        let p = s.subrange(0, i + 1);
        assert(p.last() == s[i]);
        assert(p.drop_last() =~= s.subrange(0, i));
        assert(spec_tail_key(p) =~= spec_tail_key(s.subrange(0, i)).push(s[i]));
        assert(s.subrange(i, s.len() as int) =~= seq![s[i]] + s.subrange(i + 1, s.len() as int));
    }
}

/// The character index, within `code`, where the match key's source
/// region starts; the key is the upper-cased tail from there on.
fn key_start(code: &str, n: usize) -> (j: usize)
    requires
        n == code@.len(),
    ensures
        j <= n,
        spec_tail_key(spec_strip_marker(code@)) =~= code@.subrange(j as int, n as int),
{
    let m: usize = if n > 0 {
        let c0 = code.get_char(0);
        if c0 == 'x' || c0 == 'X' {
            1
        } else {
            0
        }
    } else {
        0
    };
    let ghost t = spec_strip_marker(code@);
    proof {
        assert(t =~= code@.subrange(m as int, n as int));
    }
    let mut i: usize = n;
    while i > m
        invariant
            m <= i <= n,
            n == code@.len(),
            t == spec_strip_marker(code@),
            t =~= code@.subrange(m as int, n as int),
            forall|j: int| i <= j < n ==> code@[j] != '.',
        decreases i,
    {
        if code.get_char(i - 1) == '.' {
            proof {
                lemma_tail_key_split(t, i - m);
                assert(t.subrange(0, i - m).last() == '.');
                assert(spec_tail_key(t.subrange(0, i - m)) =~= Seq::<char>::empty());
                assert(t.subrange(i - m, t.len() as int) =~= code@.subrange(
                    i as int,
                    n as int,
                ));
                assert(spec_tail_key(t) =~= code@.subrange(i as int, n as int));
            }
            return i;
        }
        i = i - 1;
    }
    proof {
        lemma_tail_key_split(t, 0);
        assert(spec_tail_key(t.subrange(0, 0)) =~= Seq::<char>::empty());
        assert(t.subrange(0, t.len() as int) =~= t);
        assert(spec_tail_key(t) =~= code@.subrange(m as int, n as int));
    }
    m
}

/// The match key of one code.
pub fn normalize_code_for_match(code: &str) -> (key: Vec<char>)
    ensures
        key@ == spec_match_key(code@),
{
    let n = code.unicode_len();
    let j = key_start(code, n);
    let mut key: Vec<char> = Vec::new();
    let mut k: usize = j;
    while k < n
        invariant
            j <= k <= n,
            n == code@.len(),
            spec_tail_key(spec_strip_marker(code@)) =~= code@.subrange(j as int, n as int),
            key@ =~= spec_upper_seq(code@.subrange(j as int, k as int)),
        decreases n - k,
    {
        let c = upper_char(code.get_char(k));
        key.push(c);
        proof {
            assert(code@.subrange(j as int, k + 1) =~= code@.subrange(j as int, k as int).push(
                code@[k as int],
            ));
            assert(spec_upper_seq(code@.subrange(j as int, k + 1)) =~= spec_upper_seq(
                code@.subrange(j as int, k as int),
            ).push(spec_upper(code@[k as int])));
        }
        k = k + 1;
    }
    proof {
        assert(key@ =~= spec_upper_seq(spec_tail_key(spec_strip_marker(code@))));
    }
    key
}

/// Whether two already-computed match keys are the same.
pub fn keys_equal(a: &Vec<char>, b: &Vec<char>) -> (r: bool)
    ensures
        r == (a@ == b@),
{
    if a.len() != b.len() {
        proof {
            assert(a@ != b@);
        }
        return false;
    }
    let mut i: usize = 0;
    while i < a.len()
        invariant
            0 <= i <= a@.len(),
            a@.len() == b@.len(),
            forall|j: int| 0 <= j < i ==> a@[j] == b@[j],
        decreases a@.len() - i,
    {
        if a[i] != b[i] {
            return false;
        }
        i = i + 1;
    }
    proof {
        assert(a@ =~= b@);
    }
    true
}

/// Whether the two codes reduce to the same match key.
pub fn codes_match(a: &str, b: &str) -> (r: bool)
    ensures
        r == (spec_match_key(a@) == spec_match_key(b@)),
{
    let ka = normalize_code_for_match(a);
    let kb = normalize_code_for_match(b);
    keys_equal(&ka, &kb)
}

} // verus!
