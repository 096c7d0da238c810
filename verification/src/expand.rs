//! Expanding a `%token%` placeholder in a search term into a concrete
//! folder path taken from an injected environment context.
//!
//! The first `%name%` stretch in the string decides the substitution value:
//! the name is matched case-insensitively against the known folder tokens,
//! an unknown or unset token yields the empty string. Every placeholder
//! stretch is then replaced by that one value. A string without any
//! placeholder passes through unchanged.

use vstd::prelude::*;
use vstd::string::*;
use crate::chars::{chars_equal, chars_string, push_range, str_chars};

verus! {

/// The symbolic folders that may stand between percent signs in a search term.
#[derive(Clone, Copy, Debug)]
pub enum BaseFolderType {
    LocalAppData,
    RoamingAppData,
    PersonalDropbox,
    BusinessDropbox,
    ProgramFiles,
    ProgramFilesX86,
    WinDir,
    HomePath,
    Temp,
}

/// The environment values a resolution works against, injected by the caller
/// so that expansion is a pure function of this record. An absent field
/// expands to the empty string. `dropbox_info_json` holds the text of the
/// Dropbox info file when the caller found one.
#[derive(Clone, Debug)]
pub struct EnvContext {
    /// The host platform the resolution is running on.
    pub os: crate::data::OperatingSystem,
    pub local_app_data: Option<String>,
    pub roaming_app_data: Option<String>,
    pub program_files: Option<String>,
    pub program_files_x86: Option<String>,
    pub win_dir: Option<String>,
    pub home_path: Option<String>,
    pub temp: Option<String>,
    pub dropbox_info_json: Option<String>,
}

/// Index of the first `'%'` at or after `from`, if any.
pub open spec fn next_pct(s: Seq<char>, from: int) -> Option<int>
    decreases s.len() - from,
{
    if from < 0 || from >= s.len() {
        None
    } else if s[from] == '%' {
        Some(from)
    } else {
        next_pct(s, from + 1)
    }
}

proof fn lemma_next_pct_bounds(s: Seq<char>, from: int)
    requires
        0 <= from,
        next_pct(s, from) is Some,
    ensures
        from <= next_pct(s, from).unwrap() < s.len(),
        s[next_pct(s, from).unwrap()] == '%',
    decreases s.len() - from,
{
    if from < s.len() && s[from] != '%' {
        lemma_next_pct_bounds(s, from + 1);
    }
}

/// The bounds of the first `%name%` stretch at or after `from`: the indices
/// of its two percent signs, with at least one character between them. A
/// pair of adjacent percent signs is skipped, scanning on from its second
/// sign, as a fresh candidate opening.
pub open spec fn first_token_from(s: Seq<char>, from: int) -> Option<(int, int)>
    decreases s.len() - from,
{
    match next_pct(s, from) {
        None => None,
        Some(i) => match next_pct(s, i + 1) {
            None => None,
            Some(j) => if j > i + 1 {
                Some((i, j))
            } else if from < j < s.len() {
                first_token_from(s, j)
            } else {
                None
            },
        },
    }
}

proof fn lemma_first_token_bounds(s: Seq<char>, from: int)
    requires
        0 <= from,
        first_token_from(s, from) is Some,
    ensures
        from <= first_token_from(s, from).unwrap().0,
        first_token_from(s, from).unwrap().0 + 1 < first_token_from(s, from).unwrap().1,
        first_token_from(s, from).unwrap().1 < s.len(),
    decreases s.len() - from,
{
    let i = next_pct(s, from).unwrap();
    lemma_next_pct_bounds(s, from);
    let j = next_pct(s, i + 1).unwrap();
    lemma_next_pct_bounds(s, i + 1);
    if j > i + 1 {
    } else {
        lemma_first_token_bounds(s, j);
    }
}

/// `s[from..]` with every `%name%` stretch replaced by `val`, scanning left
/// to right without overlap.
pub open spec fn replace_from(s: Seq<char>, from: int, val: Seq<char>) -> Seq<char>
    decreases s.len() - from,
{
    if !(0 <= from <= s.len()) {
        Seq::<char>::empty()
    } else {
        match first_token_from(s, from) {
            None => s.subrange(from, s.len() as int),
            Some((i, j)) => if from <= i && i + 1 < j && j < s.len() {
                s.subrange(from, i) + val + replace_from(s, j + 1, val)
            } else {
                Seq::<char>::empty()
            },
        }
    }
}

/// ASCII lowercasing of one character; anything outside `'A'..'Z'` is kept.
pub open spec fn lower_char(c: char) -> char {
    match c {
        'A' => 'a',
        'B' => 'b',
        'C' => 'c',
        'D' => 'd',
        'E' => 'e',
        'F' => 'f',
        'G' => 'g',
        'H' => 'h',
        'I' => 'i',
        'J' => 'j',
        'K' => 'k',
        'L' => 'l',
        'M' => 'm',
        'N' => 'n',
        'O' => 'o',
        'P' => 'p',
        'Q' => 'q',
        'R' => 'r',
        'S' => 's',
        'T' => 't',
        'U' => 'u',
        'V' => 'v',
        'W' => 'w',
        'X' => 'x',
        'Y' => 'y',
        'Z' => 'z',
        _ => c,
    }
}

/// ASCII lowercasing of a character sequence.
pub open spec fn lower_seq(s: Seq<char>) -> Seq<char> {
    s.map_values(|c: char| lower_char(c))
}

/// Executable form of `lower_char`.
pub fn lower_char_of(c: char) -> (r: char)
    ensures
        r == lower_char(c),
{
    match c {
        'A' => 'a',
        'B' => 'b',
        'C' => 'c',
        'D' => 'd',
        'E' => 'e',
        'F' => 'f',
        'G' => 'g',
        'H' => 'h',
        'I' => 'i',
        'J' => 'j',
        'K' => 'k',
        'L' => 'l',
        'M' => 'm',
        'N' => 'n',
        'O' => 'o',
        'P' => 'p',
        'Q' => 'q',
        'R' => 'r',
        'S' => 's',
        'T' => 't',
        'U' => 'u',
        'V' => 'v',
        'W' => 'w',
        'X' => 'x',
        'Y' => 'y',
        'Z' => 'z',
        _ => c,
    }
}

/// Executable form of `lower_seq` on a character vector.
fn lower_chars(v: &Vec<char>) -> (r: Vec<char>)
    ensures
        r@ == lower_seq(v@),
{
    let mut r: Vec<char> = Vec::new();
    let mut i: usize = 0;
    while i < v.len()
        invariant
            i <= v.len(),
            r@ =~= lower_seq(v@.subrange(0, i as int)),
        decreases v.len() - i,
    {
        r.push(lower_char_of(v[i]));
        assert(r@ =~= lower_seq(v@.subrange(0, i + 1 as int)));
        i = i + 1;
    }
    assert(v@.subrange(0, v@.len() as int) =~= v@);
    r
}

/// The folder a lowercased token name denotes, if any. Both the compact and
/// the hyphenated spelling of each token are understood.
pub open spec fn token_type(t: Seq<char>) -> Option<BaseFolderType> {
    if t == "localappdata"@ || t == "local-app-data"@ {
        Some(BaseFolderType::LocalAppData)
    } else if t == "appdata"@ || t == "roaming-app-data"@ {
        Some(BaseFolderType::RoamingAppData)
    } else if t == "personaldropbox"@ || t == "personal-dropbox"@ {
        Some(BaseFolderType::PersonalDropbox)
    } else if t == "businessdropbox"@ || t == "business-dropbox"@ {
        Some(BaseFolderType::BusinessDropbox)
    } else if t == "programfiles"@ || t == "program-files"@ {
        Some(BaseFolderType::ProgramFiles)
    } else if t == "programfilesx86"@ || t == "program-files-x86"@ {
        Some(BaseFolderType::ProgramFilesX86)
    } else if t == "windir"@ || t == "windows-directory"@ {
        Some(BaseFolderType::WinDir)
    } else if t == "homepath"@ || t == "home-path"@ {
        Some(BaseFolderType::HomePath)
    } else if t == "temp"@ || t == "temp-directory"@ {
        Some(BaseFolderType::Temp)
    } else {
        None
    }
}

/// The string a context holds for an optional field; empty when unset.
pub open spec fn opt_or_empty(o: Option<String>) -> Seq<char> {
    match o {
        Some(s) => s@,
        None => Seq::<char>::empty(),
    }
}

/// What one of the two Dropbox path fields expands to, given the parsed
/// `(personal, business)` pair.
pub open spec fn dropbox_select_spec(
    personal_wanted: bool,
    pair: (Option<Seq<char>>, Option<Seq<char>>),
) -> Seq<char> {
    if personal_wanted {
        match pair.0 {
            Some(p) => p,
            None => Seq::<char>::empty(),
        }
    } else {
        match pair.1 {
            Some(p) => p,
            None => Seq::<char>::empty(),
        }
    }
}

/// Names the `(personal, business)` path pair that reading a Dropbox info
/// JSON document yields; a function of the document text alone.
pub uninterp spec fn dropbox_paths(json: Seq<char>) -> (Option<Seq<char>>, Option<Seq<char>>);

/// Relies on serde_json's `from_str`, `Value::get` and `Value::as_str`: the
/// `personal.path` and `business.path` strings read out of a JSON document
/// depend on the document text alone; a document they cannot be read from
/// (malformed, missing key, non-string path) gives `None` for that side.
#[verifier::external_body]
fn dropbox_paths_of_json(json: &str) -> (r: (Option<String>, Option<String>))
    ensures
        (r.0.deep_view(), r.1.deep_view()) == dropbox_paths(json@),
{
    let parsed: Option<serde_json::Value> = serde_json::from_str(json).ok();
    let personal = parsed.as_ref().and_then(|v| v.get("personal")).and_then(
        |v| v.get("path"),
    ).and_then(|v| v.as_str()).map(|s| s.to_string());
    let business = parsed.as_ref().and_then(|v| v.get("business")).and_then(
        |v| v.get("path"),
    ).and_then(|v| v.as_str()).map(|s| s.to_string());
    (personal, business)
}

/// Pick one side of a parsed Dropbox path pair, empty when that side is
/// absent.
pub fn select_dropbox_path(
    personal_wanted: bool,
    personal: Option<String>,
    business: Option<String>,
) -> (r: String)
    ensures
        r@ == dropbox_select_spec(personal_wanted, (personal.deep_view(), business.deep_view())),
{
    if personal_wanted {
        match personal {
            Some(p) => p,
            None => String::new(),
        }
    } else {
        match business {
            Some(p) => p,
            None => String::new(),
        }
    }
}

/// The folder a Dropbox token expands to, read from the given JSON document
/// text: the `path` under `personal` or `business`, or empty when the
/// document does not provide it. Only the Dropbox token kinds expand to
/// anything.
#[allow(unused_variables)]
pub fn get_dropbox_folder_from_json(
    base_folder_type: BaseFolderType,
    dropbox_config_path: &str,
    json: &str,
) -> (r: String)
    ensures
        match base_folder_type {
            BaseFolderType::PersonalDropbox => r@ == dropbox_select_spec(
                true,
                dropbox_paths(json@),
            ),
            BaseFolderType::BusinessDropbox => r@ == dropbox_select_spec(
                false,
                dropbox_paths(json@),
            ),
            _ => r@ == Seq::<char>::empty(),
        },
{
    let (personal, business) = dropbox_paths_of_json(json);
    match base_folder_type {
        BaseFolderType::PersonalDropbox => select_dropbox_path(true, personal, business),
        BaseFolderType::BusinessDropbox => select_dropbox_path(false, personal, business),
        _ => String::new(),
    }
}

/// What a Dropbox token expands to under a context: empty when the caller
/// found no info file.
pub open spec fn dropbox_value_spec(ctx: &EnvContext, personal_wanted: bool) -> Seq<char> {
    match ctx.dropbox_info_json {
        None => Seq::<char>::empty(),
        Some(j) => dropbox_select_spec(personal_wanted, dropbox_paths(j@)),
    }
}

/// What a recognized folder token expands to under a context.
pub open spec fn env_folder_spec(ctx: &EnvContext, t: BaseFolderType) -> Seq<char> {
    match t {
        BaseFolderType::LocalAppData => opt_or_empty(ctx.local_app_data),
        BaseFolderType::RoamingAppData => opt_or_empty(ctx.roaming_app_data),
        BaseFolderType::ProgramFiles => opt_or_empty(ctx.program_files),
        BaseFolderType::ProgramFilesX86 => opt_or_empty(ctx.program_files_x86),
        BaseFolderType::WinDir => opt_or_empty(ctx.win_dir),
        BaseFolderType::HomePath => opt_or_empty(ctx.home_path),
        BaseFolderType::Temp => opt_or_empty(ctx.temp),
        BaseFolderType::PersonalDropbox => dropbox_value_spec(ctx, true),
        BaseFolderType::BusinessDropbox => dropbox_value_spec(ctx, false),
    }
}

/// What a raw (not yet lowercased) token name expands to: unknown names give
/// the empty string.
pub open spec fn token_value_spec(ctx: &EnvContext, tok: Seq<char>) -> Seq<char> {
    match token_type(lower_seq(tok)) {
        None => Seq::<char>::empty(),
        Some(t) => env_folder_spec(ctx, t),
    }
}

/// Clone an optional field, empty when unset.
fn opt_field(o: &Option<String>) -> (r: String)
    ensures
        r@ == opt_or_empty(*o),
{
    match o {
        Some(s) => s.clone(),
        None => String::new(),
    }
}

/// The roaming application-data folder held by the context.
pub fn get_roaming_app_data_folder(ctx: &EnvContext) -> (r: String)
    ensures
        r@ == opt_or_empty(ctx.roaming_app_data),
{
    opt_field(&ctx.roaming_app_data)
}

/// The local application-data folder held by the context.
pub fn get_local_app_data_folder(ctx: &EnvContext) -> (r: String)
    ensures
        r@ == opt_or_empty(ctx.local_app_data),
{
    opt_field(&ctx.local_app_data)
}

/// The folder a Dropbox token expands to under the context.
pub fn get_dropbox_folder(ctx: &EnvContext, base_folder_type: BaseFolderType) -> (r: String)
    ensures
        match base_folder_type {
            BaseFolderType::PersonalDropbox => r@ == dropbox_value_spec(ctx, true),
            BaseFolderType::BusinessDropbox => r@ == dropbox_value_spec(ctx, false),
            _ => r@ == Seq::<char>::empty(),
        },
{
    match &ctx.dropbox_info_json {
        None => String::new(),
        Some(j) => get_dropbox_folder_from_json(base_folder_type, "", j.as_str()),
    }
}

/// The value a recognized folder token expands to under the context.
pub fn get_environment_folder(ctx: &EnvContext, base_folder_type: BaseFolderType) -> (r: String)
    ensures
        r@ == env_folder_spec(ctx, base_folder_type),
{
    match base_folder_type {
        BaseFolderType::LocalAppData => opt_field(&ctx.local_app_data),
        BaseFolderType::RoamingAppData => opt_field(&ctx.roaming_app_data),
        BaseFolderType::ProgramFiles => opt_field(&ctx.program_files),
        BaseFolderType::ProgramFilesX86 => opt_field(&ctx.program_files_x86),
        BaseFolderType::WinDir => opt_field(&ctx.win_dir),
        BaseFolderType::HomePath => opt_field(&ctx.home_path),
        BaseFolderType::Temp => opt_field(&ctx.temp),
        BaseFolderType::PersonalDropbox => get_dropbox_folder(ctx, BaseFolderType::PersonalDropbox),
        BaseFolderType::BusinessDropbox => get_dropbox_folder(ctx, BaseFolderType::BusinessDropbox),
    }
}

/// The value a raw token name expands to under the context.
fn token_value(ctx: &EnvContext, tok: &Vec<char>) -> (r: String)
    ensures
        r@ == token_value_spec(ctx, tok@),
{
    let low = lower_chars(tok);
    if chars_equal(&low, &str_chars("localappdata")) || chars_equal(
        &low,
        &str_chars("local-app-data"),
    ) {
        get_environment_folder(ctx, BaseFolderType::LocalAppData)
    } else if chars_equal(&low, &str_chars("appdata")) || chars_equal(
        &low,
        &str_chars("roaming-app-data"),
    ) {
        get_environment_folder(ctx, BaseFolderType::RoamingAppData)
    } else if chars_equal(&low, &str_chars("personaldropbox")) || chars_equal(
        &low,
        &str_chars("personal-dropbox"),
    ) {
        get_environment_folder(ctx, BaseFolderType::PersonalDropbox)
    } else if chars_equal(&low, &str_chars("businessdropbox")) || chars_equal(
        &low,
        &str_chars("business-dropbox"),
    ) {
        get_environment_folder(ctx, BaseFolderType::BusinessDropbox)
    } else if chars_equal(&low, &str_chars("programfiles")) || chars_equal(
        &low,
        &str_chars("program-files"),
    ) {
        get_environment_folder(ctx, BaseFolderType::ProgramFiles)
    } else if chars_equal(&low, &str_chars("programfilesx86")) || chars_equal(
        &low,
        &str_chars("program-files-x86"),
    ) {
        get_environment_folder(ctx, BaseFolderType::ProgramFilesX86)
    } else if chars_equal(&low, &str_chars("windir")) || chars_equal(
        &low,
        &str_chars("windows-directory"),
    ) {
        get_environment_folder(ctx, BaseFolderType::WinDir)
    } else if chars_equal(&low, &str_chars("homepath")) || chars_equal(
        &low,
        &str_chars("home-path"),
    ) {
        get_environment_folder(ctx, BaseFolderType::HomePath)
    } else if chars_equal(&low, &str_chars("temp")) || chars_equal(
        &low,
        &str_chars("temp-directory"),
    ) {
        get_environment_folder(ctx, BaseFolderType::Temp)
    } else {
        String::new()
    }
}

/// Index of the first `'%'` at or after `from`, executable form.
fn find_pct(v: &Vec<char>, from: usize) -> (r: Option<usize>)
    ensures
        match r {
            Some(k) => next_pct(v@, from as int) == Some(k as int) && from <= k < v@.len(),
            None => next_pct(v@, from as int) is None,
        },
{
    let mut i: usize = from;
    while i < v.len()
        invariant
            from <= i,
            i <= v.len() || from > v.len(),
            next_pct(v@, from as int) == next_pct(v@, i as int),
        decreases v.len() - i,
    {
        if v[i] == '%' {
            return Some(i);
        }
        i = i + 1;
    }
    None
}

/// The first `%name%` stretch at or after `from`, executable form.
fn find_token_from(v: &Vec<char>, from: usize) -> (r: Option<(usize, usize)>)
    ensures
        match r {
            Some(t) => first_token_from(v@, from as int) == Some((t.0 as int, t.1 as int))
                && from <= t.0 && t.0 + 1 < t.1 && t.1 < v@.len(),
            None => first_token_from(v@, from as int) is None,
        },
{
    let mut cur: usize = from;
    loop
        invariant
            from <= cur,
            cur <= v.len() || from > v.len(),
            first_token_from(v@, from as int) == first_token_from(v@, cur as int),
        decreases v.len() - cur,
    {
        match find_pct(v, cur) {
            None => {
                return None;
            },
            Some(i) => {
                match find_pct(v, i + 1) {
                    None => {
                        return None;
                    },
                    Some(j) => {
                        if j > i + 1 {
                            proof {
                                lemma_first_token_bounds(v@, cur as int);
                            }
                            return Some((i, j));
                        }
                        cur = j;
                    },
                }
            },
        }
    }
}

/// Replace every `%name%` stretch of `v` with `val`, executable form of
/// `replace_from` at zero.
fn replace_tokens(v: &Vec<char>, val: &Vec<char>) -> (out: Vec<char>)
    ensures
        out@ == replace_from(v@, 0, val@),
{
    let mut out: Vec<char> = Vec::new();
    let mut from: usize = 0;
    loop
        invariant
            from <= v.len(),
            replace_from(v@, 0, val@) == out@ + replace_from(v@, from as int, val@),
        decreases v.len() - from,
    {
        match find_token_from(v, from) {
            None => {
                push_range(&mut out, v, from, v.len());
                return out;
            },
            Some((i, j)) => {
                push_range(&mut out, v, from, i);
                push_range(&mut out, val, 0, val.len());
                proof {
                    assert(val@.subrange(0, val@.len() as int) =~= val@);
                    assert(replace_from(v@, from as int, val@) == v@.subrange(
                        from as int,
                        i as int,
                    ) + val@ + replace_from(v@, j + 1 as int, val@));
                    assert(out@ + replace_from(v@, j + 1 as int, val@) =~= replace_from(
                        v@,
                        0,
                        val@,
                    ));
                }
                from = j + 1;
            },
        }
    }
}

/// What expanding a search term under a context yields: the first `%name%`
/// stretch picks the substitution value, every stretch is replaced by it,
/// and a string without placeholders passes through unchanged.
pub open spec fn expand_spec(ctx: &EnvContext, s: Seq<char>) -> Seq<char> {
    match first_token_from(s, 0) {
        None => s,
        Some(t) => replace_from(s, 0, token_value_spec(ctx, s.subrange(t.0 + 1, t.1))),
    }
}

/// Expand the search term against the context as `expand_spec` describes.
pub fn get_base_folder(ctx: &EnvContext, source_folder: &str) -> (r: String)
    ensures
        r@ == expand_spec(ctx, source_folder@),
{
    let v = str_chars(source_folder);
    match find_token_from(&v, 0) {
        None => source_folder.to_owned(),
        Some((i, j)) => {
            let mut tok: Vec<char> = Vec::new();
            push_range(&mut tok, &v, i + 1, j);
            assert(tok@ =~= source_folder@.subrange(i + 1 as int, j as int));
            let val_s = token_value(ctx, &tok);
            let val = str_chars(val_s.as_str());
            let out = replace_tokens(&v, &val);
            chars_string(&out)
        },
    }
}

} // verus!
