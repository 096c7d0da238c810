//! Version strings: splitting on dots, parsing into a four-component tuple,
//! rendering back, and the ordering used to rank candidates.
//!
//! A version string parses when it has one to four components, each a
//! non-empty run of decimal digits whose value fits in `u32`; missing
//! components are zero on the right. Anything else fails to parse, and the
//! caller degrades to the sentinel tuple `(0, 0, 0, 0)`.

use vstd::prelude::*;
use crate::chars::str_chars;
use crate::digits::{
    all_digits, chars_value, dec_rep, is_digit_char, lemma_dec_rep_digits, lemma_dec_rep_value,
    parse_u32_chars, u32_dec_chars,
};

verus! {

/// Split a character sequence at every occurrence of `sep`; the separators
/// themselves are dropped. The result always has one more element than the
/// number of separators.
pub open spec fn split_chars(s: Seq<char>, sep: char) -> Seq<Seq<char>>
    decreases s.len(),
{
    if s.len() == 0 {
        seq![Seq::<char>::empty()]
    } else {
        let prev = split_chars(s.drop_last(), sep);
        if s.last() == sep {
            prev.push(Seq::<char>::empty())
        } else {
            prev.update(prev.len() - 1, prev.last().push(s.last()))
        }
    }
}

/// A split result is never empty.
pub proof fn lemma_split_nonempty(s: Seq<char>, sep: char)
    ensures
        split_chars(s, sep).len() >= 1,
    decreases s.len(),
{
    if s.len() > 0 {
        lemma_split_nonempty(s.drop_last(), sep);
    }
}

/// Appending a separator-free tail extends the last component and nothing else.
proof fn lemma_split_append_nosep(s: Seq<char>, t: Seq<char>, sep: char)
    requires
        forall|i: int| 0 <= i < t.len() ==> t[i] != sep,
    ensures
        split_chars(s + t, sep) == split_chars(s, sep).update(
            split_chars(s, sep).len() - 1,
            split_chars(s, sep).last() + t,
        ),
    decreases t.len(),
{
    lemma_split_nonempty(s, sep);
    let parts = split_chars(s, sep);
    if t.len() == 0 {
        assert(s + t =~= s);
        assert(parts.last() + t =~= parts.last());
        assert(parts.update(parts.len() - 1, parts.last()) =~= parts);
    } else {
        let t0 = t.drop_last();
        assert(forall|i: int| 0 <= i < t0.len() ==> t0[i] != sep);
        lemma_split_append_nosep(s, t0, sep);
        let mid = split_chars(s + t0, sep);
        assert((s + t).drop_last() =~= s + t0);
        assert((s + t).last() == t.last());
        assert((s + t).len() > 0);
        assert(split_chars(s + t, sep) == mid.update(mid.len() - 1, mid.last().push(t.last())));
        assert(mid == parts.update(parts.len() - 1, parts.last() + t0));
        assert(mid.len() == parts.len());
        assert(mid.last() == parts.last() + t0);
        assert(mid.last().push(t.last()) =~= parts.last() + t);
        assert(mid.update(mid.len() - 1, mid.last().push(t.last())) =~= parts.update(
            parts.len() - 1,
            parts.last() + t,
        ));
    }
}

/// Appending one separator adds one empty component at the end.
proof fn lemma_split_push_sep(s: Seq<char>, sep: char)
    ensures
        split_chars(s.push(sep), sep) == split_chars(s, sep).push(Seq::<char>::empty()),
{
    assert(s.push(sep).drop_last() =~= s);
    assert(s.push(sep).last() == sep);
}

/// A separator-free sequence is a single component.
proof fn lemma_split_single(t: Seq<char>, sep: char)
    requires
        forall|i: int| 0 <= i < t.len() ==> t[i] != sep,
    ensures
        split_chars(t, sep) == seq![t],
{
    assert(Seq::<char>::empty() + t =~= t);
    lemma_split_append_nosep(Seq::<char>::empty(), t, sep);
    let parts = split_chars(Seq::<char>::empty(), sep);
    assert(parts == seq![Seq::<char>::empty()]);
    assert(parts.last() + t =~= t);
    assert(parts.update(0, parts.last() + t) =~= seq![t]);
}

/// A component that can stand in a version: non-empty, all digits, fits `u32`.
pub open spec fn is_numeric_component(s: Seq<char>) -> bool {
    s.len() > 0 && all_digits(s) && chars_value(s) <= u32::MAX as nat
}

/// The value of component `i`, zero when the version has fewer components.
pub open spec fn version_component(parts: Seq<Seq<char>>, i: int) -> u32 {
    if 0 <= i < parts.len() {
        chars_value(parts[i]) as u32
    } else {
        0u32
    }
}

/// Every component is numeric.
pub open spec fn all_numeric(parts: Seq<Seq<char>>) -> bool {
    forall|i: int| 0 <= i < parts.len() ==> is_numeric_component(#[trigger] parts[i])
}

/// What a version string denotes: `Some` of the zero-padded four-component
/// tuple when every dot-separated component is numeric and there are at most
/// four of them, `None` otherwise.
pub open spec fn parse_version_spec(s: Seq<char>) -> Option<(u32, u32, u32, u32)> {
    if split_chars(s, '.').len() <= 4 && all_numeric(split_chars(s, '.')) {
        Some(
            (
                version_component(split_chars(s, '.'), 0),
                version_component(split_chars(s, '.'), 1),
                version_component(split_chars(s, '.'), 2),
                version_component(split_chars(s, '.'), 3),
            ),
        )
    } else {
        None
    }
}

/// The canonical rendering of a four-component version tuple.
pub open spec fn version_string_spec(a: u32, b: u32, c: u32, d: u32) -> Seq<char> {
    dec_rep(a as nat) + seq!['.'] + dec_rep(b as nat) + seq!['.'] + dec_rep(c as nat) + seq!['.']
        + dec_rep(d as nat)
}

/// The views of a vector of character vectors.
pub open spec fn views_of(q: Seq<Vec<char>>) -> Seq<Seq<char>> {
    q.map_values(|v: Vec<char>| v@)
}

/// Split the characters of a string on dots, matching `split_chars`.
fn split_on_dots(s: &str) -> (parts: Vec<Vec<char>>)
    ensures
        views_of(parts@) == split_chars(s@, '.'),
{
    let v = str_chars(s);
    let mut done: Vec<Vec<char>> = Vec::new();
    let mut cur: Vec<char> = Vec::new();
    let mut i: usize = 0;
    proof {
        assert(s@.subrange(0, 0) =~= Seq::<char>::empty());
        assert(views_of(done@).push(cur@) =~= seq![Seq::<char>::empty()]);
    }
    while i < v.len()
        invariant
            i <= v.len(),
            v@ == s@,
            views_of(done@).push(cur@) == split_chars(s@.subrange(0, i as int), '.'),
        decreases v.len() - i,
    {
        let ghost pre = s@.subrange(0, i as int);
        let ghost post = s@.subrange(0, i + 1 as int);
        proof {
            assert(post.drop_last() =~= pre);
            assert(post.last() == s@[i as int]);
        }
        let c = v[i];
        if c == '.' {
            let ghost old_done = done@;
            let ghost old_cur = cur@;
            done.push(cur);
            cur = Vec::new();
            proof {
                assert(views_of(done@) =~= views_of(old_done).push(old_cur));
                lemma_split_push_sep(pre, '.');
                assert(split_chars(post, '.') == split_chars(pre, '.').push(
                    Seq::<char>::empty(),
                ));
                assert(views_of(done@).push(cur@) =~= split_chars(pre, '.').push(
                    Seq::<char>::empty(),
                ));
            }
        } else {
            let ghost old_cur = cur@;
            cur.push(c);
            proof {
                let prev = split_chars(pre, '.');
                assert(split_chars(post, '.') == prev.update(
                    prev.len() - 1,
                    prev.last().push(c),
                ));
                assert(prev.last() == old_cur);
                assert(views_of(done@).push(cur@) =~= prev.update(
                    prev.len() - 1,
                    prev.last().push(c),
                ));
            }
        }
        i = i + 1;
    }
    assert(s@.subrange(0, v@.len() as int) =~= s@);
    done.push(cur);
    proof {
        let ghost fin = done@;
        assert(views_of(fin) =~= views_of(fin.drop_last()).push(fin.last()@));
    }
    done
}

/// Parse a version string into its zero-padded four-component tuple.
///
/// Returns `Some` exactly when the string has one to four dot-separated
/// components, each a non-empty run of decimal digits whose value fits in
/// `u32`; fewer than four components are padded with zeros on the right.
pub fn parse_file_version_to_i32(version: &str) -> (r: Option<(u32, u32, u32, u32)>)
    ensures
        r == parse_version_spec(version@),
{
    let parts = split_on_dots(version);
    let ghost sparts = split_chars(version@, '.');
    if parts.len() > 4 {
        return None;
    }
    let mut vals: Vec<u32> = Vec::new();
    let mut j: usize = 0;
    while j < parts.len()
        invariant
            j <= parts.len(),
            sparts == split_chars(version@, '.'),
            views_of(parts@) == sparts,
            vals@.len() == j,
            forall|k: int| 0 <= k < j ==> is_numeric_component(#[trigger] sparts[k]),
            forall|k: int| 0 <= k < j ==> vals@[k] as nat == chars_value(sparts[k]),
        decreases parts.len() - j,
    {
        assert(parts@[j as int]@ == sparts[j as int]);
        match parse_u32_chars(&parts[j]) {
            Some(x) => {
                vals.push(x);
            },
            None => {
                assert(!is_numeric_component(sparts[j as int]));
                assert(views_of(parts@).len() == parts@.len());
                assert(0 <= j < sparts.len());
                assert(!all_numeric(sparts));
                return None;
            },
        }
        j = j + 1;
    }
    assert(parts@.len() == sparts.len());
    proof {
        lemma_split_nonempty(version@, '.');
    }
    let a = vals[0];
    let b = if vals.len() > 1 {
        vals[1]
    } else {
        0
    };
    let c = if vals.len() > 2 {
        vals[2]
    } else {
        0
    };
    let d = if vals.len() > 3 {
        vals[3]
    } else {
        0
    };
    Some((a, b, c, d))
}

/// Parse-then-format round trip: the canonical rendering of any tuple parses
/// back to exactly that tuple, so formatting is a right inverse of parsing.
pub proof fn lemma_version_round_trip(a: u32, b: u32, c: u32, d: u32)
    ensures
        parse_version_spec(version_string_spec(a, b, c, d)) == Some((a, b, c, d)),
{
    let ra = dec_rep(a as nat);
    let rb = dec_rep(b as nat);
    let rc = dec_rep(c as nat);
    let rd = dec_rep(d as nat);
    lemma_dec_rep_digits(a as nat);
    lemma_dec_rep_digits(b as nat);
    lemma_dec_rep_digits(c as nat);
    lemma_dec_rep_digits(d as nat);
    lemma_dec_rep_value(a as nat);
    lemma_dec_rep_value(b as nat);
    lemma_dec_rep_value(c as nat);
    lemma_dec_rep_value(d as nat);
    let w1 = ra;
    let w2 = w1 + seq!['.'];
    let w3 = w2 + rb;
    let w4 = w3 + seq!['.'];
    let w5 = w4 + rc;
    let w6 = w5 + seq!['.'];
    let w7 = w6 + rd;
    lemma_split_single(ra, '.');
    assert(w2 =~= w1.push('.'));
    lemma_split_push_sep(w1, '.');
    assert(split_chars(w2, '.') == seq![ra, Seq::<char>::empty()]);
    lemma_split_append_nosep(w2, rb, '.');
    assert(split_chars(w3, '.') =~= seq![ra, rb]);
    assert(w4 =~= w3.push('.'));
    lemma_split_push_sep(w3, '.');
    assert(split_chars(w4, '.') =~= seq![ra, rb, Seq::<char>::empty()]);
    lemma_split_append_nosep(w4, rc, '.');
    assert(split_chars(w5, '.') =~= seq![ra, rb, rc]);
    assert(w6 =~= w5.push('.'));
    lemma_split_push_sep(w5, '.');
    assert(split_chars(w6, '.') =~= seq![ra, rb, rc, Seq::<char>::empty()]);
    lemma_split_append_nosep(w6, rd, '.');
    assert(split_chars(w7, '.') =~= seq![ra, rb, rc, rd]);
    assert(version_string_spec(a, b, c, d) =~= w7);
    let parts = split_chars(version_string_spec(a, b, c, d), '.');
    assert(parts == seq![ra, rb, rc, rd]);
    assert(parts[0] == ra && parts[1] == rb && parts[2] == rc && parts[3] == rd);
    assert(is_numeric_component(ra));
    assert(is_numeric_component(rb));
    assert(is_numeric_component(rc));
    assert(is_numeric_component(rd));
    assert(all_numeric(parts));
    assert(version_component(parts, 0) == a);
    assert(version_component(parts, 1) == b);
    assert(version_component(parts, 2) == c);
    assert(version_component(parts, 3) == d);
}

/// A component with anything but digits in it (or an empty component) makes
/// the whole version string fail to parse; the caller then falls back to the
/// sentinel tuple rather than dropping the candidate.
pub proof fn lemma_non_numeric_component_rejected(s: Seq<char>, i: int)
    requires
        0 <= i < split_chars(s, '.').len(),
        split_chars(s, '.')[i].len() == 0 || !all_digits(split_chars(s, '.')[i]),
    ensures
        parse_version_spec(s) is None,
{
    assert(!is_numeric_component(split_chars(s, '.')[i]));
}

/// Lexicographic "less than or equal" on version tuples.
pub open spec fn version_le(x: (u32, u32, u32, u32), y: (u32, u32, u32, u32)) -> bool {
    x.0 < y.0 || (x.0 == y.0 && (x.1 < y.1 || (x.1 == y.1 && (x.2 < y.2 || (x.2 == y.2
        && x.3 <= y.3)))))
}

/// Version ranking is a total order: any two tuples compare, mutual
/// comparison means equality, and comparison chains compose.
pub proof fn lemma_version_order_total(
    x: (u32, u32, u32, u32),
    y: (u32, u32, u32, u32),
    z: (u32, u32, u32, u32),
)
    ensures
        version_le(x, y) || version_le(y, x),
        version_le(x, y) && version_le(y, x) ==> x == y,
        version_le(x, y) && version_le(y, z) ==> version_le(x, z),
{
}

/// Executable comparison matching `version_le` on two tuples given as fields.
pub fn version_le_exec(x: (u32, u32, u32, u32), y: (u32, u32, u32, u32)) -> (r: bool)
    ensures
        r == version_le(x, y),
{
    if x.0 != y.0 {
        x.0 < y.0
    } else if x.1 != y.1 {
        x.1 < y.1
    } else if x.2 != y.2 {
        x.2 < y.2
    } else {
        x.3 <= y.3
    }
}

} // verus!
