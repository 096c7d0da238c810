//! Decimal rendering and parsing of unsigned integers, proved inverse to one
//! another. Version strings are built from and parsed into these digits.

use vstd::prelude::*;
use vstd::arithmetic::div_mod::lemma_fundamental_div_mod;

verus! {

/// A decimal digit character.
pub open spec fn is_digit_char(c: char) -> bool {
    '0' <= c && c <= '9'
}

/// The numeric value of a digit character.
pub open spec fn digit_val(c: char) -> nat {
    ((c as int) - ('0' as int)) as nat
}

/// Every character of `s` is a decimal digit.
pub open spec fn all_digits(s: Seq<char>) -> bool {
    forall|i: int| 0 <= i < s.len() ==> is_digit_char(#[trigger] s[i])
}

/// The number denoted by a digit sequence, most significant digit first.
pub open spec fn chars_value(s: Seq<char>) -> nat
    decreases s.len(),
{
    if s.len() == 0 {
        0
    } else {
        chars_value(s.drop_last()) * 10 + digit_val(s.last())
    }
}

/// The canonical decimal rendering of `n`: no leading zeros except for 0 itself.
pub open spec fn dec_rep(n: nat) -> Seq<char>
    decreases n,
{
    if n < 10 {
        seq![digit_char(n % 10)]
    } else {
        dec_rep(n / 10).push(digit_char(n % 10))
    }
}

/// The digit character for a value below ten.
pub open spec fn digit_char(d: nat) -> char {
    if d == 0 {
        '0'
    } else if d == 1 {
        '1'
    } else if d == 2 {
        '2'
    } else if d == 3 {
        '3'
    } else if d == 4 {
        '4'
    } else if d == 5 {
        '5'
    } else if d == 6 {
        '6'
    } else if d == 7 {
        '7'
    } else if d == 8 {
        '8'
    } else {
        '9'
    }
}

proof fn lemma_digit_char_val(d: nat)
    requires
        d < 10,
    ensures
        is_digit_char(digit_char(d)),
        digit_val(digit_char(d)) == d,
{
}

/// The rendering of any number consists of digits only and is never empty.
pub proof fn lemma_dec_rep_digits(n: nat)
    ensures
        dec_rep(n).len() >= 1,
        all_digits(dec_rep(n)),
    decreases n,
{
    if n < 10 {
        lemma_digit_char_val(n % 10);
    } else {
        lemma_dec_rep_digits(n / 10);
        lemma_digit_char_val(n % 10);
        assert forall|i: int| 0 <= i < dec_rep(n).len() implies is_digit_char(
            #[trigger] dec_rep(n)[i],
        ) by {
            if i < dec_rep(n / 10).len() {
                assert(dec_rep(n)[i] == dec_rep(n / 10)[i]);
            }
        }
    }
}

/// Rendering then evaluating gives the number back.
pub proof fn lemma_dec_rep_value(n: nat)
    ensures
        chars_value(dec_rep(n)) == n,
    decreases n,
{
    if n < 10 {
        lemma_digit_char_val(n % 10);
        assert(dec_rep(n).drop_last() =~= Seq::<char>::empty());
        assert(chars_value(Seq::<char>::empty()) == 0);
        assert(dec_rep(n).last() == digit_char(n % 10));
    } else {
        lemma_dec_rep_value(n / 10);
        lemma_digit_char_val(n % 10);
        assert(dec_rep(n).drop_last() =~= dec_rep(n / 10));
        assert(dec_rep(n).last() == digit_char(n % 10));
        lemma_fundamental_div_mod(n as int, 10);
        assert(chars_value(dec_rep(n)) == (n / 10) * 10 + n % 10);
    }
}

/// Appending a digit multiplies the value by ten and adds the digit.
pub proof fn lemma_chars_value_push(s: Seq<char>, c: char)
    ensures
        chars_value(s.push(c)) == chars_value(s) * 10 + digit_val(c),
{
    assert(s.push(c).drop_last() =~= s);
    assert(s.push(c).last() == c);
}

/// A digit string's value never shrinks when it is extended on the right.
pub proof fn lemma_chars_value_extend_ge(t: Seq<char>, s: Seq<char>)
    requires
        starts_with_prefix(t, s),
    ensures
        chars_value(t) >= chars_value(s),
    decreases t.len(),
{
    if t.len() == s.len() {
        assert(t =~= s);
    } else {
        assert(starts_with_prefix(t.drop_last(), s));
        lemma_chars_value_extend_ge(t.drop_last(), s);
        assert(chars_value(t) == chars_value(t.drop_last()) * 10 + digit_val(t.last()));
        assert(chars_value(t.drop_last()) * 10 >= chars_value(t.drop_last()));
    }
}

/// `s` is a prefix of `t`.
pub open spec fn starts_with_prefix(t: Seq<char>, s: Seq<char>) -> bool {
    t.len() >= s.len() && forall|i: int| 0 <= i < s.len() ==> t[i] == #[trigger] s[i]
}

/// Render `n` in decimal, matching `dec_rep`.
pub fn u32_dec_chars(n: u32) -> (r: Vec<char>)
    ensures
        r@ == dec_rep(n as nat),
    decreases n,
{
    if n < 10 {
        let c = digit_char_of(n);
        let mut r: Vec<char> = Vec::new();
        r.push(c);
        assert(r@ =~= seq![digit_char((n as nat) % 10)]);
        r
    } else {
        let mut r = u32_dec_chars(n / 10);
        let c = digit_char_of(n % 10);
        r.push(c);
        assert(r@ =~= dec_rep((n as nat) / 10).push(digit_char((n as nat) % 10)));
        r
    }
}

/// The digit character for a value below ten, executable form.
pub fn digit_char_of(d: u32) -> (c: char)
    requires
        d < 10,
    ensures
        c == digit_char(d as nat),
{
    if d == 0 {
        '0'
    } else if d == 1 {
        '1'
    } else if d == 2 {
        '2'
    } else if d == 3 {
        '3'
    } else if d == 4 {
        '4'
    } else if d == 5 {
        '5'
    } else if d == 6 {
        '6'
    } else if d == 7 {
        '7'
    } else if d == 8 {
        '8'
    } else {
        '9'
    }
}

/// Whether a digit character, executable form.
pub fn is_digit(c: char) -> (r: bool)
    ensures
        r == is_digit_char(c),
{
    '0' <= c && c <= '9'
}

/// Parse a digit string as a `u32`: `Some` exactly when the string is
/// non-empty, all digits, and its value fits.
pub fn parse_u32_chars(v: &Vec<char>) -> (r: Option<u32>)
    ensures
        match r {
            Some(x) => v@.len() > 0 && all_digits(v@) && chars_value(v@) == x as nat,
            None => v@.len() == 0 || !all_digits(v@) || chars_value(v@) > u32::MAX as nat,
        },
{
    if v.len() == 0 {
        return None;
    }
    let mut acc: u32 = 0;
    let mut i: usize = 0;
    while i < v.len()
        invariant
            i <= v.len(),
            all_digits(v@.subrange(0, i as int)),
            acc as nat == chars_value(v@.subrange(0, i as int)),
        decreases v.len() - i,
    {
        let c = v[i];
        if !is_digit(c) {
            assert(!all_digits(v@));
            return None;
        }
        let d: u32 = (c as u32) - ('0' as u32);
        assert(d as nat == digit_val(c));
        assert(d < 10);
        let limit: u32 = (u32::MAX - d) / 10;
        proof {
            lemma_fundamental_div_mod((u32::MAX - d) as int, 10);
        }
        if acc > limit {
            proof {
                let pre = v@.subrange(0, i as int).push(c);
                lemma_chars_value_push(v@.subrange(0, i as int), c);
                assert(chars_value(pre) == acc * 10 + d);
                assert(acc * 10 >= limit * 10 + 10);
                assert(chars_value(pre) > u32::MAX as nat);
                assert(starts_with_prefix(v@, pre));
                lemma_chars_value_extend_ge(v@, pre);
            }
            return None;
        }
        proof {
            lemma_chars_value_push(v@.subrange(0, i as int), c);
            assert(acc * 10 <= limit * 10);
            assert(v@.subrange(0, i + 1 as int) =~= v@.subrange(0, i as int).push(c));
        }
        acc = acc * 10 + d;
        i = i + 1;
    }
    assert(v@.subrange(0, v@.len() as int) =~= v@);
    Some(acc)
}

} // verus!
