//! Tokenizing a free-text parameter string into an ordered argument list.
//!
//! Whitespace outside quotes delimits tokens; double and single quotes open
//! and close a quoted stretch and are dropped from the output; everything
//! else, backslashes included, passes through literally. Unbalanced quotes
//! are tolerated: the quote state simply flips at each mark and the rest of
//! the input lands in the final token.

use vstd::prelude::*;
use crate::chars::{chars_string, is_space, is_space_char, str_chars};

verus! {

/// The tokens of `s[i..]`, given the state reached so far: `quote` is the
/// quote character currently open (if any), `cur` the token being built and
/// `started` whether that token has begun (a closed pair of quotes counts as
/// a begun, possibly empty, token).
pub open spec fn tokens_from(
    s: Seq<char>,
    i: int,
    quote: Option<char>,
    cur: Seq<char>,
    started: bool,
) -> Seq<Seq<char>>
    decreases s.len() - i,
{
    if i < 0 || i >= s.len() {
        if started {
            seq![cur]
        } else {
            Seq::<Seq<char>>::empty()
        }
    } else {
        let c = s[i];
        match quote {
            Some(q) => if c == q {
                tokens_from(s, i + 1, None, cur, started)
            } else {
                tokens_from(s, i + 1, quote, cur.push(c), started)
            },
            None => if c == '"' || c == '\'' {
                tokens_from(s, i + 1, Some(c), cur, true)
            } else if is_space_char(c) {
                if started {
                    seq![cur] + tokens_from(s, i + 1, None, Seq::<char>::empty(), false)
                } else {
                    tokens_from(s, i + 1, None, cur, false)
                }
            } else {
                tokens_from(s, i + 1, None, cur.push(c), true)
            },
        }
    }
}

/// The token sequence of a whole parameter string.
pub open spec fn tokenize_spec(s: Seq<char>) -> Seq<Seq<char>> {
    tokens_from(s, 0, None, Seq::<char>::empty(), false)
}

/// Split a parameter string into argument tokens, honoring quoting as
/// described by `tokenize_spec`. Empty input yields no tokens.
pub fn parse_arguments(input: &str) -> (r: Vec<String>)
    ensures
        r.deep_view() == tokenize_spec(input@),
{
    let v = str_chars(input);
    let mut out: Vec<String> = Vec::new();
    let mut cur: Vec<char> = Vec::new();
    let mut quote: Option<char> = None;
    let mut started: bool = false;
    let mut i: usize = 0;
    while i < v.len()
        invariant
            i <= v.len(),
            v@ == input@,
            quote is Some ==> (quote == Some('"') || quote == Some('\'')),
            tokenize_spec(input@) == out.deep_view() + tokens_from(
                input@,
                i as int,
                quote,
                cur@,
                started,
            ),
        decreases v.len() - i,
    {
        let c = v[i];
        let ghost old_out = out.deep_view();
        let ghost old_cur = cur@;
        match quote {
            Some(q) => {
                if c == q {
                    quote = None;
                } else {
                    cur.push(c);
                }
            },
            None => {
                if c == '"' || c == '\'' {
                    quote = Some(c);
                    started = true;
                } else if is_space(c) {
                    if started {
                        out.push(chars_string(&cur));
                        cur = Vec::new();
                        started = false;
                        proof {
                            assert(out.deep_view() =~= old_out.push(old_cur));
                            assert(out.deep_view() + tokens_from(
                                input@,
                                i + 1 as int,
                                None,
                                cur@,
                                false,
                            ) =~= old_out + (seq![old_cur] + tokens_from(
                                input@,
                                i + 1 as int,
                                None,
                                Seq::<char>::empty(),
                                false,
                            )));
                        }
                    }
                } else {
                    cur.push(c);
                    started = true;
                }
            },
        }
        i = i + 1;
    }
    if started {
        let ghost old_out = out.deep_view();
        out.push(chars_string(&cur));
        proof {
            assert(out.deep_view() =~= old_out.push(cur@));
            assert(old_out.push(cur@) =~= old_out + seq![cur@]);
        }
    }
    proof {
        assert(out.deep_view() + Seq::<Seq<char>>::empty() =~= out.deep_view());
    }
    out
}

} // verus!
