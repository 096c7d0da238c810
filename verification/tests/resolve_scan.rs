//! Strategy resolution, scanning, ranking and property extraction.

use app_lemonator::data::{App, FileVersion, OperatingSystem, SearchMethod};
use app_lemonator::errors::ResolveError;
use app_lemonator::expand::EnvContext;
use app_lemonator::fsops::{get_matches_count, truncate_middle};
use app_lemonator::probe::{decide_windows_tuple, description_query_cmd, version_query_cmd};
use app_lemonator::resolve::{
    add_query_context, decide_base_folder, decide_shortcut, get_app_file_version,
    get_folder_search, get_shortcut, package_query_cmd, pick_best_path,
    search_for_app_file_version,
};
use app_lemonator::shell::{get_property_from_stdout, run_powershell_cmd};

fn ctx_with_os(os: OperatingSystem) -> EnvContext {
    EnvContext {
        os,
        local_app_data: None,
        roaming_app_data: None,
        program_files: None,
        program_files_x86: None,
        win_dir: None,
        home_path: None,
        temp: None,
        dropbox_info_json: None,
    }
}

fn app_with(term: &str, exe: &str, method: SearchMethod) -> App {
    App::new(
        "TestApp".to_string(),
        exe.to_string(),
        None,
        term.to_string(),
        method,
        OperatingSystem::Windows,
    )
}

fn fv(path: &str, t: (u32, u32, u32, u32)) -> FileVersion {
    FileVersion {
        app_description: String::new(),
        path: path.to_string(),
        major: t.0,
        minor: t.1,
        build: t.2,
        revision: t.3,
    }
}

#[test]
fn ranking_selects_greatest_tuple() {
    let files = vec!["a".to_string(), "b".to_string()];
    let versions = vec![fv("a", (1, 0, 0, 0)), fv("b", (2, 0, 0, 0))];
    assert_eq!(pick_best_path(&files, &versions), "b");
    let versions = vec![fv("a", (2, 0, 0, 0)), fv("b", (1, 9, 9, 9))];
    assert_eq!(pick_best_path(&files, &versions), "a");
}

#[test]
fn ranking_prefers_later_of_equal_tuples() {
    let files = vec!["a".to_string(), "b".to_string()];
    let versions = vec![fv("a", (1, 2, 3, 4)), fv("b", (1, 2, 3, 4))];
    assert_eq!(pick_best_path(&files, &versions), "b");
}

#[test]
fn ranking_falls_back_to_first_match_without_versions() {
    let files = vec!["first".to_string(), "second".to_string()];
    assert_eq!(pick_best_path(&files, &Vec::new()), "first");
}

#[test]
fn sentinel_version_never_wins() {
    let files = vec!["a".to_string(), "b".to_string()];
    let versions = vec![fv("a", (0, 0, 0, 1)), fv("b", (0, 0, 0, 0))];
    assert_eq!(pick_best_path(&files, &versions), "a");
}

#[test]
fn folder_search_missing_base_folder() {
    let ctx = ctx_with_os(OperatingSystem::Windows);
    let app = app_with("/nonexistent_dir_qq18", "whatever.exe", SearchMethod::FolderSearch);
    let e = get_folder_search(&ctx, &app).unwrap_err();
    match e {
        ResolveError::FolderNotFound { folder } => assert_eq!(folder, "/nonexistent_dir_qq18"),
        _ => panic!("wrong error kind"),
    }
}

#[test]
fn folder_search_no_match_in_existing_folder() {
    let ctx = ctx_with_os(OperatingSystem::Windows);
    let app = app_with("src", "no_such_file_zzqq.exe", SearchMethod::FolderSearch);
    let e = get_folder_search(&ctx, &app).unwrap_err();
    match e {
        ResolveError::NoMatchFound { exe_name, folder } => {
            assert_eq!(exe_name, "no_such_file_zzqq.exe");
            assert_eq!(folder, "src");
        }
        _ => panic!("wrong error kind"),
    }
}

#[test]
fn folder_search_unknown_platform_cannot_rank() {
    let ctx = ctx_with_os(OperatingSystem::Unknown);
    let app = app_with("src", "lib.rs", SearchMethod::FolderSearch);
    let e = get_folder_search(&ctx, &app).unwrap_err();
    assert!(matches!(e, ResolveError::UnsupportedPlatform { .. }));
}

#[test]
fn folder_search_falls_back_to_first_when_no_probe_succeeds() {
    // Probing consults the Windows query tool, which this host does not
    // have, so every candidate stays unranked and the first match in scan
    // order is taken.
    let ctx = ctx_with_os(OperatingSystem::Windows);
    let app = app_with("src", "lib.rs", SearchMethod::FolderSearch);
    let p = get_folder_search(&ctx, &app).unwrap();
    assert!(p.ends_with("lib.rs"));
}

#[test]
fn folder_search_matches_names_case_insensitively() {
    let ctx = ctx_with_os(OperatingSystem::Windows);
    let app = app_with("src", "LIB.RS", SearchMethod::FolderSearch);
    let p = get_folder_search(&ctx, &app).unwrap();
    assert!(p.ends_with("lib.rs"));
}

#[test]
fn shortcut_missing_path_fails_without_scanning() {
    let ctx = ctx_with_os(OperatingSystem::Windows);
    let app = app_with("/nonexistent_dir_qq19", "app.exe", SearchMethod::Shortcut);
    let e = get_shortcut(&ctx, &app).unwrap_err();
    match e {
        ResolveError::PathMissingAtLaunch { app_name, path } => {
            assert_eq!(app_name, "TestApp");
            assert_eq!(path, r"/nonexistent_dir_qq19\app.exe");
        }
        _ => panic!("wrong error kind"),
    }
}

#[test]
fn missing_base_folder_gate_reports_it() {
    match decide_base_folder("F".to_string(), false).unwrap_err() {
        ResolveError::FolderNotFound { folder } => assert_eq!(folder, "F"),
        _ => panic!("wrong error kind"),
    }
    assert_eq!(decide_base_folder("F".to_string(), true).unwrap(), "F");
}

#[test]
fn missing_shortcut_gate_reports_the_path() {
    let app = app_with("t", "a.exe", SearchMethod::Shortcut);
    match decide_shortcut(&app, r"C:\x\a.exe".to_string(), false).unwrap_err() {
        ResolveError::PathMissingAtLaunch { app_name, path } => {
            assert_eq!(app_name, "TestApp");
            assert_eq!(path, r"C:\x\a.exe");
        }
        _ => panic!("wrong error kind"),
    }
    assert_eq!(decide_shortcut(&app, r"C:\x\a.exe".to_string(), true).unwrap(), r"C:\x\a.exe");
}

#[test]
fn package_query_off_windows_is_unsupported() {
    let ctx = ctx_with_os(OperatingSystem::MacOS);
    let app = app_with("Some.Package", "app.exe", SearchMethod::PSGetApp);
    let e = search_for_app_file_version(&ctx, &app).unwrap_err();
    assert!(matches!(e, ResolveError::UnsupportedPlatform { .. }));
}

#[test]
fn powershell_refused_off_windows() {
    let e = run_powershell_cmd(OperatingSystem::Unknown, "Get-Date").unwrap_err();
    match e {
        ResolveError::UnsupportedPlatform { os_name } => assert_eq!(os_name, "Unknown"),
        _ => panic!("wrong error kind"),
    }
}

#[test]
fn non_numeric_field_collapses_whole_tuple() {
    assert_eq!(decide_windows_tuple("10", "0", "x", "3"), (0, 0, 0, 0));
    assert_eq!(decide_windows_tuple("", "0", "1", "3"), (0, 0, 0, 0));
    assert_eq!(decide_windows_tuple("10", "0", "22631", "3"), (10, 0, 22631, 3));
}

#[test]
fn query_commands_are_the_stated_text() {
    assert_eq!(
        version_query_cmd(r"C:\a.exe"),
        "(Get-Item \"C:\\a.exe\").VersionInfo.FileVersionRaw | Format-List -Property Major, Minor, Build, Revision"
    );
    assert_eq!(
        description_query_cmd(r"C:\a.exe"),
        "(Get-Item \"C:\\a.exe\").VersionInfo | Format-List -Property FileDescription"
    );
    assert_eq!(
        package_query_cmd("Some.Package"),
        "Get-AppXPackage -Name Some.Package | Format-List InstallLocation"
    );
}

#[test]
fn resolution_context_is_added_to_query_failures() {
    let app = app_with("term", "a.exe", SearchMethod::FolderSearch);
    let wrapped = add_query_context(
        &app,
        ResolveError::ExternalQueryFailed { detail: "tool missing".to_string() },
    );
    match wrapped {
        ResolveError::ExternalQueryFailed { detail } => assert_eq!(
            detail,
            "Failed to get app details for app 'TestApp' using search method 'FolderSearch' \
             and search term 'term': tool missing"
        ),
        _ => panic!("wrong error kind"),
    }
    let untouched = add_query_context(&app, ResolveError::FolderNotFound { folder: "F".to_string() });
    assert!(matches!(untouched, ResolveError::FolderNotFound { .. }));
}

#[test]
fn unreadable_bundle_is_external_query_failure() {
    let e = app_lemonator::probe::get_macos_file_version_information("/nonexistent_dir_qq20/A.app")
        .unwrap_err();
    assert!(matches!(e, ResolveError::ExternalQueryFailed { .. }));
}

#[test]
fn cached_version_is_used_as_is() {
    let ctx = ctx_with_os(OperatingSystem::Windows);
    let app = app_with("term", "app.exe", SearchMethod::Shortcut);
    let cached = fv(r"C:\cached\app.exe", (3, 1, 4, 1));
    let got = get_app_file_version(&ctx, &app, Some(cached)).unwrap();
    assert_eq!(got.path, r"C:\cached\app.exe");
    assert_eq!((got.major, got.minor, got.build, got.revision), (3, 1, 4, 1));
}

#[test]
fn property_extraction_takes_first_prefixed_line() {
    let lines = vec![
        "Name            : Foo".to_string(),
        "InstallLocation : C:\\Apps\\Foo  ".to_string(),
        "InstallLocation : D:\\Other".to_string(),
    ];
    assert_eq!(get_property_from_stdout(&lines, "InstallLocation : "), r"C:\Apps\Foo");
}

#[test]
fn property_extraction_without_match_is_empty() {
    let lines = vec!["Name : Foo".to_string()];
    assert_eq!(get_property_from_stdout(&lines, "InstallLocation : "), "");
}

#[test]
fn matches_count_renders_number() {
    assert_eq!(get_matches_count(0), "0 matches");
    assert_eq!(get_matches_count(5), "5 matches");
    assert_eq!(get_matches_count(120), "120 matches");
}

#[test]
fn truncate_middle_shortens_long_strings() {
    assert_eq!(truncate_middle("abcdefghij", 6), "ab..ij");
    assert_eq!(truncate_middle("short", 80), "short");
}
