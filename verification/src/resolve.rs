//! Turning an application descriptor into a single launchable path, per
//! discovery strategy: a package-manager query, a recursive folder search
//! with version ranking, or a literal shortcut path.

use vstd::prelude::*;
use vstd::string::*;
use crate::data::{App, FileVersion, OperatingSystem};
use crate::errors::ResolveError;
use crate::expand::{expand_spec, get_base_folder, EnvContext};
use crate::fsops::{
    check_app_exists, collect_matches, folder_exists, full_path_spec, get_full_path, match_paths,
};
use crate::probe::get_file_version;
use crate::shell::{get_property_from_stdout, property_spec, run_powershell_cmd};
use crate::version::version_le;

verus! {

/// A path the package query can legitimately succeed with: for some tool
/// output, the install location it reported — non-empty — joined with the
/// descriptor's executable name.
pub open spec fn package_query_ok(app: &App, p: Seq<char>) -> bool {
    exists|lines: Seq<Seq<char>>|
        #[trigger] property_spec(lines, "InstallLocation : "@).len() > 0 && p == full_path_spec(
            property_spec(lines, "InstallLocation : "@),
            app.exe_name@,
        )
}

/// The exact command handed to the tool to query the package manager for a
/// search term's install location.
pub fn package_query_cmd(search_term: &str) -> (r: String)
    ensures
        r@ == "Get-AppXPackage -Name "@ + search_term@ + " | Format-List InstallLocation"@,
{
    let mut cmd = "Get-AppXPackage -Name ".to_owned();
    cmd.append(search_term);
    cmd.append(" | Format-List InstallLocation");
    proof {
        assert(cmd@ =~= "Get-AppXPackage -Name "@ + search_term@
            + " | Format-List InstallLocation"@);
    }
    cmd
}

/// Query the package manager for the descriptor's search term — via exactly
/// the command `package_query_cmd` builds — and append the executable name
/// to the reported install location. Only Windows can; a query failure, and
/// a query that yields no install location, are `ExternalQueryFailed`,
/// their detail naming the application.
pub fn get_powershell_getxapppackage(ctx: &EnvContext, app: &App) -> (r: Result<
    String,
    ResolveError,
>)
    ensures
        ctx.os != OperatingSystem::Windows ==> (r matches Err(e) && e matches
            ResolveError::UnsupportedPlatform { os_name } && os_name@ == ctx.os.name_spec()),
        ctx.os == OperatingSystem::Windows ==> (r matches Err(e) ==> e matches
            ResolveError::ExternalQueryFailed { .. }),
        r matches Ok(p) ==> ctx.os == OperatingSystem::Windows && package_query_ok(app, p@),
{
    let cmd = package_query_cmd(app.search_term.as_str());
    let lines = match run_powershell_cmd(ctx.os, cmd.as_str()) {
        Ok(lines) => lines,
        Err(e) => {
            match e {
                ResolveError::ExternalQueryFailed { detail } => {
                    let mut d = "app '".to_owned();
                    d.append(app.app_name.as_str());
                    d.append("': ");
                    d.append(detail.as_str());
                    return Err(ResolveError::ExternalQueryFailed { detail: d });
                },
                _ => {
                    return Err(e);
                },
            }
        },
    };
    let app_path = get_property_from_stdout(&lines, "InstallLocation : ");
    if app_path.as_str().is_empty() {
        let mut detail = "No install location reported for app '".to_owned();
        detail.append(app.app_name.as_str());
        detail.append("' using search term '");
        detail.append(app.search_term.as_str());
        detail.append("'");
        return Err(ResolveError::ExternalQueryFailed { detail });
    }
    let full = get_full_path(app_path.as_str(), app.exe_name.as_str());
    proof {
        let lv = lines.deep_view();
        assert(property_spec(lv, "InstallLocation : "@).len() > 0 && full@ == full_path_spec(
            property_spec(lv, "InstallLocation : "@),
            app.exe_name@,
        ));
        assert(package_query_ok(app, full@));
    }
    Ok(full)
}

/// The index the ranking selects: the last candidate whose tuple is
/// greatest, so that every candidate compares below or equal to it and
/// every later candidate compares strictly below it.
pub open spec fn is_best_index(versions: Seq<FileVersion>, k: int) -> bool {
    0 <= k < versions.len() && (forall|i: int|
        0 <= i < versions.len() ==> version_le(#[trigger] versions[i].tuple(), versions[k].tuple()))
        && (forall|i: int|
        k < i < versions.len() ==> !version_le(
            versions[k].tuple(),
            #[trigger] versions[i].tuple(),
        ))
}

/// Pick the path of the highest-ranked probed candidate; when not a single
/// candidate could be probed, fall back to the first match in scan order.
pub fn pick_best_path(files: &Vec<String>, versions: &Vec<FileVersion>) -> (r: String)
    requires
        files@.len() > 0,
    ensures
        versions@.len() == 0 ==> r == files@[0],
        versions@.len() > 0 ==> exists|k: int|
            #[trigger] is_best_index(versions@, k) && r == versions@[k].path,
{
    if versions.len() == 0 {
        return files[0].clone();
    }
    let mut best: usize = 0;
    let mut i: usize = 1;
    while i < versions.len()
        invariant
            versions@.len() > 0,
            best < i <= versions@.len(),
            forall|j: int|
                0 <= j < i ==> version_le(
                    #[trigger] versions@[j].tuple(),
                    versions@[best as int].tuple(),
                ),
            forall|j: int|
                best < j < i ==> !version_le(
                    versions@[best as int].tuple(),
                    #[trigger] versions@[j].tuple(),
                ),
        decreases versions@.len() - i,
    {
        let cur = (
            versions[i].major,
            versions[i].minor,
            versions[i].build,
            versions[i].revision,
        );
        let b = (
            versions[best].major,
            versions[best].minor,
            versions[best].build,
            versions[best].revision,
        );
        if crate::version::version_le_exec(b, cur) {
            best = i;
        }
        i = i + 1;
    }
    assert(is_best_index(versions@, best as int));
    versions[best].path.clone()
}

/// What a successful folder search hands back, given the matched paths
/// `found` and the version records `versions` that probing produced: every
/// probed record belongs to a match, and the path is the last-best record's
/// — or the first match in scan order when not one candidate was probed.
pub open spec fn folder_search_outcome(
    found: Seq<Seq<char>>,
    versions: Seq<FileVersion>,
    p: Seq<char>,
) -> bool {
    found.len() > 0 && (forall|j: int|
        0 <= j < versions.len() ==> found.contains(#[trigger] versions[j].path@)) && (
    versions.len() == 0 ==> p == found[0]) && (versions.len() > 0 ==> exists|k: int|
        #[trigger] is_best_index(versions, k) && p == versions[k].path@)
}

/// A path a folder search can legitimately succeed with: for some walked
/// entries and some probing outcomes over their matches, it is the
/// selection `folder_search_outcome` describes.
pub open spec fn folder_search_ok(app: &App, p: Seq<char>) -> bool {
    exists|entries: Seq<(String, String)>, versions: Seq<FileVersion>|
        #[trigger] folder_search_outcome(match_paths(entries, app.exe_name@), versions, p)
}

/// Decide whether a folder search may proceed, from already-made existence
/// knowledge: the expanded base folder when it is present as a directory,
/// `FolderNotFound` naming exactly that folder when it is not. The scan
/// only ever runs after this gate allows it, so a missing base folder is
/// answered without any scan.
pub fn decide_base_folder(folder: String, folder_present: bool) -> (r: Result<
    String,
    ResolveError,
>)
    ensures
        folder_present ==> (r matches Ok(f) && f == folder),
        !folder_present ==> (r matches Err(e) && e matches ResolveError::FolderNotFound {
            folder: missing,
        } && missing == folder),
{
    if folder_present {
        Ok(folder)
    } else {
        Err(ResolveError::FolderNotFound { folder })
    }
}

/// Resolve by recursive folder search: expand the search term, require the
/// folder to exist, scan it for the executable name, probe every match and
/// take the highest version; when no match could be probed, the first match
/// in scan order. A missing folder is `FolderNotFound` and is answered
/// before any scan; no match at all is `NoMatchFound`; a platform that
/// cannot probe is `UnsupportedPlatform`.
pub fn get_folder_search(ctx: &EnvContext, app: &App) -> (r: Result<String, ResolveError>)
    ensures
        r matches Err(e) ==> match e {
            ResolveError::FolderNotFound { folder } => folder@ == expand_spec(
                ctx,
                app.search_term@,
            ),
            ResolveError::NoMatchFound { exe_name, folder } => exe_name@ == app.exe_name@
                && folder@ == expand_spec(ctx, app.search_term@),
            ResolveError::UnsupportedPlatform { os_name } => ctx.os == OperatingSystem::Unknown
                && os_name@ == ctx.os.name_spec(),
            _ => false,
        },
        r is Ok ==> ctx.os != OperatingSystem::Unknown,
        r is Ok ==> folder_search_ok(app, r.unwrap()@),
{
    let expanded = get_base_folder(ctx, app.search_term.as_str());
    let present = folder_exists(expanded.as_str());
    let base_folder = match decide_base_folder(expanded, present) {
        Ok(folder) => folder,
        Err(e) => {
            return Err(e);
        },
    };
    let entries = crate::fsops::walk_entries(base_folder.as_str());
    let files = collect_matches(&entries, app.exe_name.as_str());
    if files.len() == 0 {
        return Err(
            ResolveError::NoMatchFound { exe_name: app.exe_name.clone(), folder: base_folder },
        );
    }
    if ctx.os == OperatingSystem::Unknown {
        return Err(ResolveError::UnsupportedPlatform { os_name: ctx.os.name() });
    }
    let mut file_versions: Vec<FileVersion> = Vec::new();
    let mut i: usize = 0;
    while i < files.len()
        invariant
            i <= files@.len(),
            forall|j: int|
                0 <= j < file_versions@.len() ==> exists|m: int|
                    0 <= m < files@.len() && #[trigger] file_versions@[j].path@ == files@[m]@,
        decreases files@.len() - i,
    {
        match get_file_version(ctx.os, files[i].as_str()) {
            Ok(fv) => {
                file_versions.push(fv);
            },
            Err(_) => {
                // A candidate that cannot be probed stays unranked; it is
                // not discarded as an error.
            },
        }
        i = i + 1;
    }
    let chosen = pick_best_path(&files, &file_versions);
    proof {
        let found = match_paths(entries@, app.exe_name@);
        assert(files.deep_view() == found);
        assert(found.len() > 0);
        assert forall|j: int| 0 <= j < file_versions@.len() implies found.contains(
            #[trigger] file_versions@[j].path@,
        ) by {
            let m = choose|m: int|
                0 <= m < files@.len() && file_versions@[j].path@ == files@[m]@;
            assert(found[m] == file_versions@[j].path@);
        }
        if file_versions@.len() == 0 {
            assert(found[0] == files@[0]@);
        } else {
            let k = choose|k: int|
                is_best_index(file_versions@, k) && chosen == file_versions@[k].path;
            assert(is_best_index(file_versions@, k) && chosen@ == file_versions@[k].path@);
        }
        assert(folder_search_outcome(
            match_paths(entries@, app.exe_name@),
            file_versions@,
            chosen@,
        ));
        assert(folder_search_ok(app, chosen@));
    }
    Ok(chosen)
}

/// Decide a shortcut resolution from already-made existence knowledge: the
/// literal path itself when it is present, the missing-path failure naming
/// the application and exactly that path when it is not. Nothing else can
/// come out of the shortcut strategy — no scan, no ranking.
pub fn decide_shortcut(app: &App, full_path: String, app_present: bool) -> (r: Result<
    String,
    ResolveError,
>)
    ensures
        app_present ==> (r matches Ok(p) && p == full_path),
        !app_present ==> (r matches Err(e) && e matches ResolveError::PathMissingAtLaunch {
            app_name,
            path,
        } && app_name@ == app.app_name@ && path == full_path),
{
    if app_present {
        Ok(full_path)
    } else {
        Err(ResolveError::PathMissingAtLaunch { app_name: app.app_name.clone(), path: full_path })
    }
}

/// Resolve a shortcut: expand the search term, append the executable name,
/// and require that literal path to exist. Nothing is scanned and nothing
/// is ranked; a missing path ends this strategy.
pub fn get_shortcut(ctx: &EnvContext, app: &App) -> (r: Result<String, ResolveError>)
    ensures
        r matches Ok(p) ==> p@ == full_path_spec(
            expand_spec(ctx, app.search_term@),
            app.exe_name@,
        ) && ctx.os != OperatingSystem::Unknown,
        r matches Err(e) ==> (e matches ResolveError::PathMissingAtLaunch { app_name, path }
            && app_name@ == app.app_name@ && path@ == full_path_spec(
            expand_spec(ctx, app.search_term@),
            app.exe_name@,
        )),
        ctx.os == OperatingSystem::Unknown ==> r is Err,
{
    let base_folder = get_base_folder(ctx, app.search_term.as_str());
    let path = get_full_path(base_folder.as_str(), app.exe_name.as_str());
    let present = check_app_exists(ctx.os, path.as_str());
    decide_shortcut(app, path, present)
}

/// Resolve the descriptor by its strategy and probe the resolved path for
/// its version record.
pub fn search_for_app_file_version(ctx: &EnvContext, app: &App) -> (r: Result<
    FileVersion,
    ResolveError,
>)
    ensures
        ctx.os == OperatingSystem::Unknown ==> r is Err,
        r matches Ok(fv) ==> ctx.os != OperatingSystem::Unknown,
        app.search_method == crate::data::SearchMethod::PSGetApp && ctx.os
            != OperatingSystem::Windows ==> (r matches Err(e) && e matches
            ResolveError::UnsupportedPlatform { os_name } && os_name@ == ctx.os.name_spec()),
        app.search_method == crate::data::SearchMethod::PSGetApp ==> (r matches Ok(fv)
            ==> package_query_ok(app, fv.path@)),
        app.search_method == crate::data::SearchMethod::Shortcut ==> (r matches Ok(fv)
            ==> fv.path@ == full_path_spec(expand_spec(ctx, app.search_term@), app.exe_name@)),
        app.search_method == crate::data::SearchMethod::FolderSearch ==> (r matches Ok(fv)
            ==> folder_search_ok(app, fv.path@)),
{
    let app_path = match app.search_method {
        crate::data::SearchMethod::PSGetApp => get_powershell_getxapppackage(ctx, app),
        crate::data::SearchMethod::FolderSearch => get_folder_search(ctx, app),
        crate::data::SearchMethod::Shortcut => get_shortcut(ctx, app),
    };
    match app_path {
        Ok(path) => get_file_version(ctx.os, path.as_str()),
        Err(e) => Err(e),
    }
}

/// The context a fresh resolution's external failure is reported under:
/// which application was being resolved, by which strategy, with which
/// search term — enough to diagnose without re-running.
pub open spec fn query_context_spec(app: &App) -> Seq<char> {
    "Failed to get app details for app '"@ + app.app_name@ + "' using search method '"@
        + app.search_method.name_spec() + "' and search term '"@ + app.search_term@ + "': "@
}

/// Put a fresh resolution's failure under its descriptor's context: an
/// external-query failure gets the context written into its detail, every
/// other kind already names what it needs and passes through unchanged.
pub fn add_query_context(app: &App, e: ResolveError) -> (r: ResolveError)
    ensures
        e matches ResolveError::ExternalQueryFailed { detail } ==> (r matches
            ResolveError::ExternalQueryFailed { detail: d } && d@ == query_context_spec(app)
            + detail@),
        !(e matches ResolveError::ExternalQueryFailed { .. }) ==> r == e,
{
    match e {
        ResolveError::ExternalQueryFailed { detail } => {
            let mut d = "Failed to get app details for app '".to_owned();
            d.append(app.app_name.as_str());
            d.append("' using search method '");
            let n = app.search_method.name();
            d.append(n.as_str());
            d.append("' and search term '");
            d.append(app.search_term.as_str());
            d.append("': ");
            d.append(detail.as_str());
            proof {
                assert(d@ =~= query_context_spec(app) + detail@);
            }
            ResolveError::ExternalQueryFailed { detail: d }
        },
        _ => e,
    }
}

/// The version record to launch with: the cached one when the caller has
/// it, a fresh resolution otherwise.
pub fn get_app_file_version(
    ctx: &EnvContext,
    app: &App,
    app_file_version: Option<FileVersion>,
) -> (r: Result<FileVersion, ResolveError>)
    ensures
        app_file_version matches Some(v) ==> r == Ok::<FileVersion, ResolveError>(v),
        app_file_version is None && ctx.os == OperatingSystem::Unknown ==> r is Err,
        app_file_version is None ==> (r matches Ok(fv) ==> ctx.os != OperatingSystem::Unknown),
        app_file_version is None && app.search_method == crate::data::SearchMethod::PSGetApp
            && ctx.os != OperatingSystem::Windows ==> (r matches Err(e) && e matches
            ResolveError::UnsupportedPlatform { .. }),
        app_file_version is None && app.search_method == crate::data::SearchMethod::PSGetApp ==> (
        r matches Ok(fv) ==> package_query_ok(app, fv.path@)),
        app_file_version is None && app.search_method == crate::data::SearchMethod::Shortcut ==> (
        r matches Ok(fv) ==> fv.path@ == full_path_spec(
            expand_spec(ctx, app.search_term@),
            app.exe_name@,
        )),
        app_file_version is None && app.search_method == crate::data::SearchMethod::FolderSearch
            ==> (r matches Ok(fv) ==> folder_search_ok(app, fv.path@)),
        app_file_version is None ==> (r matches Err(e) ==> (e matches
            ResolveError::ExternalQueryFailed { detail }
            ==> crate::digits::starts_with_prefix(detail@, query_context_spec(app)))),
{
    match app_file_version {
        Some(v) => Ok(v),
        None => match search_for_app_file_version(ctx, app) {
            Ok(fv) => Ok(fv),
            Err(e) => Err(add_query_context(app, e)),
        },
    }
}

} // verus!
