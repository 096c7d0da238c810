//! Disk probes, path joining, the recursive file scanner, and export-file
//! naming. The calls that touch the disk are trusted at their boundary;
//! everything that decides or computes around them is verified.

use vstd::prelude::*;
use vstd::string::*;
use crate::chars::{chars_string, str_chars};
use crate::data::OperatingSystem;
use crate::digits::dec_rep;
use crate::digits::u32_dec_chars;
use crate::expand::{opt_or_empty, EnvContext};

verus! {

/// Relies on std's `Path::is_dir`: whether the path names an existing
/// directory on this machine right now.
#[verifier::external_body]
pub fn folder_exists(folder_path: &str) -> bool {
    std::path::Path::new(folder_path).is_dir()
}

/// Relies on std's `Path::is_file`: whether the path names an existing
/// regular file on this machine right now.
#[verifier::external_body]
pub fn file_exists(file_path: &str) -> bool {
    std::path::Path::new(file_path).is_file()
}

/// Whether a resolved application path exists, with the per-platform
/// reading: a file on Windows, a bundle directory on macOS. An unknown
/// platform never reports an existing application.
pub fn check_app_exists(os: OperatingSystem, app_path: &str) -> (r: bool)
    ensures
        os == OperatingSystem::Unknown ==> r == false,
{
    match os {
        OperatingSystem::Windows => file_exists(app_path),
        OperatingSystem::MacOS => folder_exists(app_path),
        OperatingSystem::Unknown => false,
    }
}

/// A path separator, in either direction.
pub open spec fn is_sep_char(c: char) -> bool {
    c == '\\' || c == '/'
}

/// A name that stands on its own rather than inside a base folder: one that
/// opens with a separator, or one that carries a drive prefix.
pub open spec fn is_absolute_name(name: Seq<char>) -> bool {
    (name.len() > 0 && is_sep_char(name[0])) || (name.len() >= 2 && name[1] == ':')
}

/// Joining a base path and a file name, with push semantics: an absolute
/// file name replaces the base entirely; an empty base passes the name
/// through; a base already ending in a separator is not doubled; otherwise
/// a backslash goes between. Inserting a backslash on every platform is a
/// deliberate choice — the engine's search terms address Windows paths, and
/// separators of both directions are recognized where already present.
pub open spec fn full_path_spec(base: Seq<char>, name: Seq<char>) -> Seq<char> {
    if is_absolute_name(name) {
        name
    } else if base.len() == 0 {
        name
    } else if is_sep_char(base.last()) {
        base + name
    } else {
        base + seq!['\\'] + name
    }
}

/// Join a base path and a file name as `full_path_spec` describes.
pub fn get_full_path(base_path: &str, file_name: &str) -> (r: String)
    ensures
        r@ == full_path_spec(base_path@, file_name@),
{
    let n = str_chars(file_name);
    if n.len() > 0 && (n[0] == '\\' || n[0] == '/') {
        return file_name.to_owned();
    }
    if n.len() >= 2 && n[1] == ':' {
        return file_name.to_owned();
    }
    let b = str_chars(base_path);
    if b.len() == 0 {
        return file_name.to_owned();
    }
    let last = b[b.len() - 1];
    let mut out = b;
    if !(last == '\\' || last == '/') {
        out.push('\\');
    }
    let mut tail = n;
    out.append(&mut tail);
    proof {
        assert(out@ =~= full_path_spec(base_path@, file_name@));
    }
    chars_string(&out)
}

/// Names the result of Unicode-lowercasing a character sequence; a function
/// of the characters alone.
pub uninterp spec fn lower_of(s: Seq<char>) -> Seq<char>;

/// Relies on std's `str::to_lowercase`: the lowercase equivalent of the
/// string, depending on its characters alone.
#[verifier::external_body]
fn lowercase(s: &str) -> (r: String)
    ensures
        r@ == lower_of(s@),
{
    s.to_lowercase()
}

/// Relies on walkdir's `WalkDir`: every entry under `root_folder` in the
/// walk's own depth-first order, as pairs of full path and final name
/// component; entries that cannot be read are skipped.
#[verifier::external_body]
pub(crate) fn walk_entries(root_folder: &str) -> Vec<(String, String)> {
    walkdir::WalkDir::new(root_folder)
        .into_iter()
        .filter_map(|e| e.ok())
        .map(|e| (e.path().display().to_string(), e.file_name().to_string_lossy().to_string()))
        .collect()
}

/// The paths of the entries whose name equals `find` after lowercasing, in
/// entry order.
pub open spec fn match_paths(entries: Seq<(String, String)>, find: Seq<char>) -> Seq<Seq<char>>
    decreases entries.len(),
{
    if entries.len() == 0 {
        Seq::<Seq<char>>::empty()
    } else {
        let rest = match_paths(entries.drop_last(), find);
        if lower_of(entries.last().1@) == lower_of(find) {
            rest.push(entries.last().0@)
        } else {
            rest
        }
    }
}

/// Filter a list of walked entries down to the paths whose file name
/// matches `find_file` case-insensitively, preserving order.
pub fn collect_matches(entries: &Vec<(String, String)>, find_file: &str) -> (r: Vec<String>)
    ensures
        r.deep_view() == match_paths(entries@, find_file@),
{
    let lf = lowercase(find_file);
    let mut r: Vec<String> = Vec::new();
    let mut i: usize = 0;
    while i < entries.len()
        invariant
            i <= entries.len(),
            lf@ == lower_of(find_file@),
            r.deep_view() == match_paths(entries@.subrange(0, i as int), find_file@),
        decreases entries.len() - i,
    {
        let ghost pre = entries@.subrange(0, i as int);
        let ghost post = entries@.subrange(0, i + 1 as int);
        proof {
            assert(post.drop_last() =~= pre);
            assert(post.last() == entries@[i as int]);
        }
        let ln = lowercase(entries[i].1.as_str());
        if ln == lf {
            let ghost old_r = r.deep_view();
            r.push(entries[i].0.clone());
            proof {
                assert(r.deep_view() =~= old_r.push(entries@[i as int].0@));
            }
        }
        i = i + 1;
    }
    assert(entries@.subrange(0, entries@.len() as int) =~= entries@);
    r
}

/// Recursively search the tree under `root_folder` for files whose name
/// matches `find_file` case-insensitively, appending each matching path to
/// `results` in walk order. What the walk saw is whatever the disk held.
pub fn find_file_in_folders(root_folder: &str, find_file: &str, results: &mut Vec<String>)
    ensures
        exists|entries: Seq<(String, String)>|
            final(results).deep_view() == old(results).deep_view() + match_paths(
                entries,
                find_file@,
            ),
{
    let entries = walk_entries(root_folder);
    let mut found = collect_matches(&entries, find_file);
    let ghost before = results.deep_view();
    let ghost found_view = found.deep_view();
    results.append(&mut found);
    proof {
        assert(results.deep_view() =~= before + found_view);
    }
}

/// `"N matches"` for the running match count.
pub fn get_matches_count(found_count: i32) -> (r: String)
    requires
        found_count >= 0,
    ensures
        r@ == dec_rep(found_count as nat) + " matches"@,
{
    let digits = u32_dec_chars(found_count as u32);
    let mut s = chars_string(&digits);
    s.append(" matches");
    s
}

/// A string shortened for display: when over the limit, the middle is
/// replaced by two dots, keeping half the limit from each side around the
/// original's midpoint.
pub open spec fn truncate_middle_spec(s: Seq<char>, limit: nat) -> Seq<char> {
    if s.len() <= limit {
        s
    } else {
        s.subrange(0, s.len() as int / 2 - limit as int / 2) + seq!['.', '.'] + s.subrange(
            s.len() as int / 2 + limit as int / 2,
            s.len() as int,
        )
    }
}

/// Shorten a long string for display as `truncate_middle_spec` describes.
pub fn truncate_middle(input: &str, size_limit: usize) -> (r: String)
    ensures
        r@ == truncate_middle_spec(input@, size_limit as nat),
{
    let v = str_chars(input);
    if v.len() <= size_limit {
        return input.to_owned();
    }
    let middle = v.len() / 2;
    let half = size_limit / 2;
    let start = middle - half;
    let end = middle + half;
    let mut out: Vec<char> = Vec::new();
    crate::chars::push_range(&mut out, &v, 0, start);
    out.push('.');
    out.push('.');
    let mut k: usize = end;
    while k < v.len()
        invariant
            end <= k <= v.len(),
            end == v@.len() / 2 + size_limit / 2,
            start == v@.len() / 2 - size_limit / 2,
            v@ == input@,
            out@ =~= v@.subrange(0, start as int) + seq!['.', '.'] + v@.subrange(
                end as int,
                k as int,
            ),
        decreases v.len() - k,
    {
        out.push(v[k]);
        assert(out@ =~= v@.subrange(0, start as int) + seq!['.', '.'] + v@.subrange(
            end as int,
            k + 1 as int,
        ));
        k = k + 1;
    }
    proof {
        assert(out@ =~= truncate_middle_spec(input@, size_limit as nat));
    }
    chars_string(&out)
}

/// Index of the last path separator, if any.
pub open spec fn last_sep_index(s: Seq<char>) -> Option<int>
    decreases s.len(),
{
    if s.len() == 0 {
        None
    } else if s.last() == '\\' || s.last() == '/' {
        Some(s.len() - 1)
    } else {
        last_sep_index(s.drop_last())
    }
}

/// Index of the last dot, if any.
pub open spec fn last_dot_index(s: Seq<char>) -> Option<int>
    decreases s.len(),
{
    if s.len() == 0 {
        None
    } else if s.last() == '.' {
        Some(s.len() - 1)
    } else {
        last_dot_index(s.drop_last())
    }
}

/// The final name component of a path: everything after the last separator.
pub open spec fn file_part(s: Seq<char>) -> Seq<char> {
    match last_sep_index(s) {
        None => s,
        Some(k) => s.subrange(k + 1, s.len() as int),
    }
}

/// Everything before the last separator, the separator excluded.
pub open spec fn parent_part(s: Seq<char>) -> Seq<char> {
    match last_sep_index(s) {
        None => Seq::<char>::empty(),
        Some(k) => s.subrange(0, k),
    }
}

/// Whether the final name component carries a non-empty extension: a dot
/// that is neither its first nor its last character.
pub open spec fn has_extension(s: Seq<char>) -> bool {
    match last_dot_index(file_part(s)) {
        None => false,
        Some(p) => 0 < p < file_part(s).len() - 1,
    }
}

/// The export file name chosen from a requested path, a default folder and
/// a default file name, given whether the folder the choice leans on exists
/// as a directory (`parent_ok`). A request without a usable extension is
/// treated as a folder to put the default name in; a request whose folder
/// is missing falls back to the default folder.
pub open spec fn choose_export_spec(
    file_in: Seq<char>,
    default_folder: Seq<char>,
    default_file_name: Seq<char>,
    parent_ok: bool,
) -> Seq<char> {
    if !has_extension(file_in) {
        if parent_ok {
            full_path_spec(file_in, default_file_name)
        } else {
            full_path_spec(default_folder, default_file_name)
        }
    } else {
        if parent_ok {
            full_path_spec(parent_part(file_in), file_part(file_in))
        } else {
            full_path_spec(default_folder, file_part(file_in))
        }
    }
}

/// Index of the last path separator, executable form.
fn find_last_sep(v: &Vec<char>) -> (r: Option<usize>)
    ensures
        match r {
            Some(k) => last_sep_index(v@) == Some(k as int) && k < v@.len(),
            None => last_sep_index(v@) is None,
        },
{
    let mut i: usize = v.len();
    assert(v@.subrange(0, v@.len() as int) =~= v@);
    while i > 0
        invariant
            i <= v.len(),
            last_sep_index(v@) == last_sep_index(v@.subrange(0, i as int)),
        decreases i,
    {
        let ghost pre = v@.subrange(0, i as int);
        proof {
            assert(pre.drop_last() =~= v@.subrange(0, i - 1 as int));
            assert(pre.last() == v@[i - 1 as int]);
        }
        let c = v[i - 1];
        if c == '\\' || c == '/' {
            return Some(i - 1);
        }
        i = i - 1;
    }
    assert(v@.subrange(0, 0) =~= Seq::<char>::empty());
    None
}

/// Index of the last dot, executable form.
fn find_last_dot(v: &Vec<char>) -> (r: Option<usize>)
    ensures
        match r {
            Some(k) => last_dot_index(v@) == Some(k as int) && k < v@.len(),
            None => last_dot_index(v@) is None,
        },
{
    let mut i: usize = v.len();
    assert(v@.subrange(0, v@.len() as int) =~= v@);
    while i > 0
        invariant
            i <= v.len(),
            last_dot_index(v@) == last_dot_index(v@.subrange(0, i as int)),
        decreases i,
    {
        let ghost pre = v@.subrange(0, i as int);
        proof {
            assert(pre.drop_last() =~= v@.subrange(0, i - 1 as int));
            assert(pre.last() == v@[i - 1 as int]);
        }
        let c = v[i - 1];
        if c == '.' {
            return Some(i - 1);
        }
        i = i - 1;
    }
    assert(v@.subrange(0, 0) =~= Seq::<char>::empty());
    None
}

/// Pick the export file name from already-made existence knowledge; the
/// pure core of `get_export_file_name`.
pub fn choose_export_file_name(
    file_in: &str,
    default_folder: &str,
    default_file_name: &str,
    parent_ok: bool,
) -> (r: String)
    ensures
        r@ == choose_export_spec(file_in@, default_folder@, default_file_name@, parent_ok),
{
    let v = str_chars(file_in);
    let n = v.len();
    let sep = find_last_sep(&v);
    let name_from: usize = match sep {
        Some(k) => k + 1,
        None => 0,
    };
    let mut name: Vec<char> = Vec::new();
    crate::chars::push_range(&mut name, &v, name_from, n);
    proof {
        assert(name@ =~= file_part(file_in@));
    }
    let dot = find_last_dot(&name);
    let ext_ok: bool = match dot {
        Some(p) => p > 0 && p + 1 < name.len(),
        None => false,
    };
    assert(ext_ok == has_extension(file_in@));
    if !ext_ok {
        if parent_ok {
            get_full_path(file_in, default_file_name)
        } else {
            get_full_path(default_folder, default_file_name)
        }
    } else {
        let name_s = chars_string(&name);
        if parent_ok {
            let mut parent: Vec<char> = Vec::new();
            let parent_to: usize = match sep {
                Some(k) => k,
                None => 0,
            };
            crate::chars::push_range(&mut parent, &v, 0, parent_to);
            proof {
                assert(parent@ =~= parent_part(file_in@));
            }
            let parent_s = chars_string(&parent);
            get_full_path(parent_s.as_str(), name_s.as_str())
        } else {
            get_full_path(default_folder, name_s.as_str())
        }
    }
}

/// The file a database export should be written to: the requested path when
/// it is usable, falling back to the default folder and default name where
/// it is not. The existence test consults the disk; the choice made from it
/// is `choose_export_spec`.
pub fn get_export_file_name(file_in: &str, default_folder: &str, default_file_name: &str) -> (r:
    String)
    ensures
        exists|parent_ok: bool|
            r@ == choose_export_spec(
                file_in@,
                default_folder@,
                default_file_name@,
                parent_ok,
            ),
{
    let v = str_chars(file_in);
    let n = v.len();
    let sep = find_last_sep(&v);
    let name_from: usize = match sep {
        Some(k) => k + 1,
        None => 0,
    };
    let mut name: Vec<char> = Vec::new();
    crate::chars::push_range(&mut name, &v, name_from, n);
    let dot = find_last_dot(&name);
    let ext_ok: bool = match dot {
        Some(p) => p > 0 && p + 1 < name.len(),
        None => false,
    };
    let parent_ok: bool;
    if !ext_ok {
        parent_ok = folder_exists(file_in);
    } else {
        let mut parent: Vec<char> = Vec::new();
        let parent_to: usize = match sep {
            Some(k) => k,
            None => 0,
        };
        crate::chars::push_range(&mut parent, &v, 0, parent_to);
        let parent_s = chars_string(&parent);
        parent_ok = folder_exists(parent_s.as_str());
    }
    choose_export_file_name(file_in, default_folder, default_file_name, parent_ok)
}

/// Where the Dropbox info file sits, when it exists: under the roaming
/// application-data folder first, the local one second.
pub fn get_dropbox_config_path(ctx: &EnvContext) -> (r: Option<String>)
    ensures
        match r {
            Some(p) => p@ == full_path_spec(
                opt_or_empty(ctx.roaming_app_data),
                "Dropbox\\info.json"@,
            ) || p@ == full_path_spec(opt_or_empty(ctx.local_app_data), "Dropbox\\info.json"@),
            None => true,
        },
{
    let roaming = crate::expand::get_roaming_app_data_folder(ctx);
    let candidate = get_full_path(roaming.as_str(), "Dropbox\\info.json");
    if file_exists(candidate.as_str()) {
        return Some(candidate);
    }
    let local = crate::expand::get_local_app_data_folder(ctx);
    let candidate = get_full_path(local.as_str(), "Dropbox\\info.json");
    if file_exists(candidate.as_str()) {
        return Some(candidate);
    }
    None
}

} // verus!
