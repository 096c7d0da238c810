//! Argument tokenization and launch preparation.

use app_lemonator::args::parse_arguments;
use app_lemonator::data::{App, OperatingSystem, SearchMethod};
use app_lemonator::errors::ResolveError;
use app_lemonator::launch::plan_launch;

#[test]
fn parse_arguments_chrome_default_profile() {
    // Arrange
    let input = r#" --args --profile-directory="Default""#;
    let expected = vec![
        "--args".to_string(),
        "--profile-directory=Default".to_string(),
    ];

    // Act
    let actual = parse_arguments(input);

    // Assert
    assert_eq!(actual, expected);
}

#[test]
fn parse_arguments_chrome_profile_1() {
    // Arrange
    let input = r#" --args --profile-directory="Profile 1""#;
    let expected = vec![
        "--args".to_string(),
        "--profile-directory=Profile 1".to_string(),
    ];

    // Act
    let actual = parse_arguments(input);

    // Assert
    assert_eq!(actual, expected);
}

#[test]
fn parse_arguments_chrome_profile_1_alt() {
    // Arrange
    let input = r#" --args --profile-directory='Profile 1'"#;
    let expected = vec![
        "--args".to_string(),
        "--profile-directory=Profile 1".to_string(),
    ];

    // Act
    let actual = parse_arguments(input);

    // Assert
    assert_eq!(actual, expected);
}

#[test]
fn parse_arguments_empty_input_yields_no_tokens() {
    assert_eq!(parse_arguments(""), Vec::<String>::new());
    assert_eq!(parse_arguments("   "), Vec::<String>::new());
}

#[test]
fn parse_arguments_backslashes_are_literal() {
    assert_eq!(
        parse_arguments(r#"C:\Program Files\app.exe"#),
        vec![r"C:\Program".to_string(), r"Files\app.exe".to_string()]
    );
    assert_eq!(
        parse_arguments(r#""C:\Program Files\app.exe""#),
        vec![r"C:\Program Files\app.exe".to_string()]
    );
}

#[test]
fn parse_arguments_unbalanced_quote_swallows_rest() {
    assert_eq!(
        parse_arguments(r#"a "b c"#),
        vec!["a".to_string(), "b c".to_string()]
    );
}

fn windows_app(params: Option<&str>) -> App {
    App::new(
        "Chrome".to_string(),
        "chrome.exe".to_string(),
        params.map(|p| p.to_string()),
        "term".to_string(),
        SearchMethod::FolderSearch,
        OperatingSystem::Windows,
    )
}

#[test]
fn plan_launch_windows_runs_path_directly() {
    let app = windows_app(Some(r#"--args --profile-directory="Profile 1""#));
    let cmd = plan_launch(&app, r"C:\apps\chrome.exe", true).unwrap();
    assert_eq!(cmd.program, r"C:\apps\chrome.exe");
    assert_eq!(
        cmd.args,
        vec!["--args".to_string(), "--profile-directory=Profile 1".to_string()]
    );
    assert_eq!(
        cmd.message,
        "Successfully opened 'Chrome' from 'C:\\apps\\chrome.exe' \
         with params '--args --profile-directory=Profile 1'"
    );
}

#[test]
fn plan_launch_macos_goes_through_open_helper() {
    let mut app = windows_app(Some("--x"));
    app.operating_system = OperatingSystem::MacOS;
    let cmd = plan_launch(&app, "/Applications/App.app", true).unwrap();
    assert_eq!(cmd.program, "open");
    assert_eq!(cmd.args, vec!["/Applications/App.app".to_string(), "--x".to_string()]);
}

#[test]
fn plan_launch_missing_path_is_reported() {
    let app = windows_app(None);
    let e = plan_launch(&app, r"C:\gone.exe", false).unwrap_err();
    match &e {
        ResolveError::PathMissingAtLaunch { app_name, path } => {
            assert_eq!(app_name, "Chrome");
            assert_eq!(path, r"C:\gone.exe");
        }
        _ => panic!("wrong error kind"),
    }
    assert_eq!(
        e.message(),
        "App path does not exist for app 'Chrome' and path 'C:\\gone.exe'"
    );
}

#[test]
fn plan_launch_unknown_platform_is_unsupported() {
    let mut app = windows_app(None);
    app.operating_system = OperatingSystem::Unknown;
    let e = plan_launch(&app, "/x", true).unwrap_err();
    assert!(matches!(e, ResolveError::UnsupportedPlatform { .. }));
}

#[test]
fn plan_launch_without_params_has_empty_args() {
    let app = windows_app(None);
    let cmd = plan_launch(&app, r"C:\a.exe", true).unwrap();
    assert_eq!(cmd.args, Vec::<String>::new());
    assert_eq!(
        cmd.message,
        "Successfully opened 'Chrome' from 'C:\\a.exe' with params ''"
    );
}

#[test]
fn error_messages_carry_context() {
    assert_eq!(
        ResolveError::FolderNotFound { folder: "F".to_string() }.message(),
        "Base Folder 'F' does not exist"
    );
    assert_eq!(
        ResolveError::NoMatchFound { exe_name: "e".to_string(), folder: "F".to_string() }
            .message(),
        "No matches found for 'e' using recursive search in folder 'F'"
    );
    assert_eq!(
        ResolveError::UnsupportedPlatform { os_name: "Unknown".to_string() }.message(),
        "Unsupported platform 'Unknown'"
    );
    assert_eq!(
        ResolveError::ExternalQueryFailed { detail: "d".to_string() }.message(),
        "External query failed: d"
    );
    assert_eq!(
        ResolveError::VersionParseFailed { version: "v".to_string() }.message(),
        "Failed to parse the version string 'v'"
    );
    assert_eq!(
        ResolveError::SpawnFailed { app_name: "a".to_string(), detail: "d".to_string() }
            .message(),
        "Failed to open 'a': d"
    );
}
