//! Running the external package-query tool and reading values out of its
//! line-oriented output. The one external call is trusted at its boundary;
//! the line splitting, prefix matching and trimming are verified.

use vstd::prelude::*;
use vstd::string::*;
use crate::chars::{chars_start_with, chars_string, is_space, is_space_char, push_range, str_chars};
use crate::data::OperatingSystem;
use crate::errors::ResolveError;

verus! {

/// Relies on powershell_script's `PsScriptBuilder` and `PsScript::run`: runs
/// the command in a fresh non-interactive PowerShell and hands back its
/// standard output (`None` when the child wrote nothing), or the error's
/// description. What comes back depends on the machine. The crate locates
/// the PowerShell binary by consulting the `PATH` environment variable and
/// panics, on every host, when that variable is absent, so this process
/// must run with `PATH` set.
#[verifier::external_body]
fn run_powershell_raw(powershell_cmd: &str) -> Result<Option<String>, String> {
    let ps = powershell_script::PsScriptBuilder::new()
        .no_profile(true)
        .non_interactive(true)
        .hidden(false)
        .print_commands(false)
        .build();
    match ps.run(powershell_cmd) {
        Ok(output) => Ok(output.stdout()),
        Err(e) => Err(e.to_string()),
    }
}

/// The lines of `s[i..]` split at each `\r\n`, with `cur` the line built so
/// far. A lone `\r` or `\n` stays in its line.
pub open spec fn lines_from(s: Seq<char>, i: int, cur: Seq<char>) -> Seq<Seq<char>>
    decreases s.len() - i,
{
    if i < 0 || i >= s.len() {
        seq![cur]
    } else if s[i] == '\r' && i + 1 < s.len() && s[i + 1] == '\n' {
        seq![cur] + lines_from(s, i + 2, Seq::<char>::empty())
    } else {
        lines_from(s, i + 1, cur.push(s[i]))
    }
}

/// A text split at each `\r\n`.
pub open spec fn split_lines_spec(s: Seq<char>) -> Seq<Seq<char>> {
    lines_from(s, 0, Seq::<char>::empty())
}

/// Split a text at each `\r\n` pair, matching `split_lines_spec`.
pub fn split_crlf(text: &str) -> (r: Vec<String>)
    ensures
        r.deep_view() == split_lines_spec(text@),
{
    let v = str_chars(text);
    let mut out: Vec<String> = Vec::new();
    let mut cur: Vec<char> = Vec::new();
    let mut i: usize = 0;
    while i < v.len()
        invariant
            i <= v.len(),
            v@ == text@,
            split_lines_spec(text@) == out.deep_view() + lines_from(text@, i as int, cur@),
        decreases v.len() - i,
    {
        let ghost old_out = out.deep_view();
        let ghost old_cur = cur@;
        if v[i] == '\r' && i + 1 < v.len() && v[i + 1] == '\n' {
            out.push(chars_string(&cur));
            cur = Vec::new();
            proof {
                assert(out.deep_view() =~= old_out.push(old_cur));
                assert(out.deep_view() + lines_from(text@, i + 2 as int, cur@) =~= old_out + (
                seq![old_cur] + lines_from(text@, i + 2 as int, Seq::<char>::empty())));
            }
            i = i + 2;
        } else {
            cur.push(v[i]);
            i = i + 1;
        }
    }
    let ghost old_out = out.deep_view();
    out.push(chars_string(&cur));
    proof {
        assert(out.deep_view() =~= old_out.push(cur@));
        assert(old_out.push(cur@) =~= old_out + seq![cur@]);
    }
    out
}

/// Leading whitespace removed.
pub open spec fn trim_start_spec(s: Seq<char>) -> Seq<char>
    decreases s.len(),
{
    if s.len() > 0 && is_space_char(s.first()) {
        trim_start_spec(s.drop_first())
    } else {
        s
    }
}

/// Trailing whitespace removed.
pub open spec fn trim_end_spec(s: Seq<char>) -> Seq<char>
    decreases s.len(),
{
    if s.len() > 0 && is_space_char(s.last()) {
        trim_end_spec(s.drop_last())
    } else {
        s
    }
}

/// Whitespace removed from both ends.
pub open spec fn trim_spec(s: Seq<char>) -> Seq<char> {
    trim_end_spec(trim_start_spec(s))
}

/// Remove whitespace from both ends, matching `trim_spec`.
fn trim_chars(v: &Vec<char>) -> (r: Vec<char>)
    ensures
        r@ == trim_spec(v@),
{
    let mut a: usize = 0;
    assert(v@.subrange(0, v@.len() as int) =~= v@);
    while a < v.len() && is_space(v[a])
        invariant
            a <= v.len(),
            trim_start_spec(v@) == trim_start_spec(v@.subrange(a as int, v@.len() as int)),
            forall|t: int| a <= t < v@.len() ==> v@.subrange(a as int, v@.len() as int)[t - a]
                == v@[t],
        decreases v.len() - a,
    {
        let ghost pre = v@.subrange(a as int, v@.len() as int);
        proof {
            assert(pre.first() == v@[a as int]);
            assert(pre.drop_first() =~= v@.subrange(a + 1 as int, v@.len() as int));
        }
        a = a + 1;
    }
    proof {
        let pre = v@.subrange(a as int, v@.len() as int);
        if a < v.len() {
            assert(pre.first() == v@[a as int]);
        }
        assert(trim_start_spec(v@) == pre);
    }
    let mut b: usize = v.len();
    while b > a && is_space(v[b - 1])
        invariant
            a <= b <= v.len(),
            trim_start_spec(v@) == v@.subrange(a as int, v@.len() as int),
            trim_end_spec(v@.subrange(a as int, v@.len() as int)) == trim_end_spec(
                v@.subrange(a as int, b as int),
            ),
        decreases b,
    {
        let ghost pre = v@.subrange(a as int, b as int);
        proof {
            assert(pre.last() == v@[b - 1 as int]);
            assert(pre.drop_last() =~= v@.subrange(a as int, b - 1 as int));
        }
        b = b - 1;
    }
    proof {
        let pre = v@.subrange(a as int, b as int);
        if b > a {
            assert(pre.last() == v@[b - 1 as int]);
        }
        assert(trim_end_spec(v@.subrange(a as int, v@.len() as int)) == pre);
    }
    let mut r: Vec<char> = Vec::new();
    push_range(&mut r, v, a, b);
    r
}

/// Index of the first line at or after `from` that begins with `prefix`.
pub open spec fn first_with_prefix_from(
    lines: Seq<Seq<char>>,
    prefix: Seq<char>,
    from: int,
) -> Option<int>
    decreases lines.len() - from,
{
    if from < 0 || from >= lines.len() {
        None
    } else if crate::chars::starts_with_spec(lines[from], prefix) {
        Some(from)
    } else {
        first_with_prefix_from(lines, prefix, from + 1)
    }
}

/// The value a property line carries: the first line beginning with the
/// prefix, the prefix stripped, whitespace trimmed from both ends; empty
/// when no line matches.
pub open spec fn property_spec(lines: Seq<Seq<char>>, prefix: Seq<char>) -> Seq<char> {
    match first_with_prefix_from(lines, prefix, 0) {
        None => Seq::<char>::empty(),
        Some(k) => trim_spec(lines[k].subrange(prefix.len() as int, lines[k].len() as int)),
    }
}

/// Extract a property value from line-oriented tool output, as
/// `property_spec` describes.
pub fn get_property_from_stdout(stdout_strings: &Vec<String>, property_name: &str) -> (r: String)
    ensures
        r@ == property_spec(stdout_strings.deep_view(), property_name@),
{
    let p = str_chars(property_name);
    let ghost lines = stdout_strings.deep_view();
    let mut i: usize = 0;
    while i < stdout_strings.len()
        invariant
            i <= stdout_strings.len(),
            p@ == property_name@,
            lines == stdout_strings.deep_view(),
            first_with_prefix_from(lines, property_name@, 0) == first_with_prefix_from(
                lines,
                property_name@,
                i as int,
            ),
        decreases stdout_strings.len() - i,
    {
        let line = str_chars(stdout_strings[i].as_str());
        assert(line@ == lines[i as int]);
        if chars_start_with(&line, &p) {
            let mut rest: Vec<char> = Vec::new();
            push_range(&mut rest, &line, p.len(), line.len());
            let trimmed = trim_chars(&rest);
            proof {
                assert(rest@ =~= lines[i as int].subrange(
                    property_name@.len() as int,
                    lines[i as int].len() as int,
                ));
            }
            return chars_string(&trimmed);
        }
        i = i + 1;
    }
    assert(first_with_prefix_from(lines, property_name@, 0) is None);
    String::new()
}

/// Run a package-query command. Only Windows hosts can: any other platform
/// reports `UnsupportedPlatform` without attempting the call. On Windows
/// the external tool decides: its output comes back split into lines, a
/// failure or an empty output becomes `ExternalQueryFailed`.
pub fn run_powershell_cmd(os: OperatingSystem, powershell_cmd: &str) -> (r: Result<
    Vec<String>,
    ResolveError,
>)
    ensures
        os != OperatingSystem::Windows ==> (r matches Err(e) && e matches
            ResolveError::UnsupportedPlatform { os_name } && os_name@ == os.name_spec()),
        os == OperatingSystem::Windows ==> (r matches Err(e) ==> e matches
            ResolveError::ExternalQueryFailed { .. }),
        r matches Ok(lines) ==> os == OperatingSystem::Windows && exists|text: Seq<char>|
            lines.deep_view() == split_lines_spec(text),
{
    if !(os == OperatingSystem::Windows) {
        return Err(ResolveError::UnsupportedPlatform { os_name: os.name() });
    }
    match run_powershell_raw(powershell_cmd) {
        Err(detail) => Err(ResolveError::ExternalQueryFailed { detail }),
        Ok(None) => {
            let mut detail = "No stdout from PowerShell, command was '".to_owned();
            detail.append(powershell_cmd);
            detail.append("'");
            Err(ResolveError::ExternalQueryFailed { detail })
        },
        Ok(Some(text)) => {
            let lines = split_crlf(text.as_str());
            proof {
                assert(exists|t: Seq<char>| lines.deep_view() == split_lines_spec(t)) by {
                    assert(lines.deep_view() == split_lines_spec(text@));
                }
            }
            Ok(lines)
        },
    }
}

} // verus!
