//! Descriptor validation and the display helpers.

use app_lemonator::data::{
    display_option_string, format_local_datetime, App, OperatingSystem, SearchMethod,
};

#[test]
fn app_validate_psgetapp_on_macos_fails() {
    // Arrange
    let new_app = App::new(
        "app_name".to_string(),
        "exe_name".to_string(),
        None,
        "search_term".to_string(),
        SearchMethod::PSGetApp,
        OperatingSystem::MacOS,
    );

    // Act
    let actual = new_app.validate();

    // Assert
    assert!(actual.is_err());
    assert!(actual.unwrap_err().contains(&format!(
        "Search method '{}' is only supported on Windows",
        new_app.search_method.name()
    )));
}

#[test]
fn app_validate_no_app_name() {
    // Arrange
    let new_app = App::new(
        "".to_string(),
        "exe_name".to_string(),
        None,
        "search_term".to_string(),
        SearchMethod::FolderSearch,
        OperatingSystem::Windows,
    );

    // Act
    let actual = new_app.validate();

    // Assert
    assert!(actual.is_err());
    assert!(actual.unwrap_err().contains("App Name is empty."));
}

#[test]
fn app_validate_no_exe_name() {
    // Arrange
    let new_app = App::new(
        "app_name".to_string(),
        "".to_string(),
        None,
        "search_term".to_string(),
        SearchMethod::FolderSearch,
        OperatingSystem::Windows,
    );

    // Act
    let actual = new_app.validate();

    // Assert
    assert!(actual.is_err());
    assert!(actual.unwrap_err().contains("Exe Name is empty."));
}

#[test]
fn app_validate_no_search_term() {
    // Arrange
    let new_app = App::new(
        "app_name".to_string(),
        "exe_name".to_string(),
        None,
        "".to_string(),
        SearchMethod::FolderSearch,
        OperatingSystem::Windows,
    );

    // Act
    let actual = new_app.validate();

    // Assert
    assert!(actual.is_err());
    assert!(actual.unwrap_err().contains("Search Term is empty."));
}

#[test]
fn app_validate_psgetapp_on_windows_success() {
    // Arrange
    let new_app = App::new(
        "app_name".to_string(),
        "exe_name".to_string(),
        None,
        "search_term".to_string(),
        SearchMethod::PSGetApp,
        OperatingSystem::Windows,
    );

    // Act
    let actual = new_app.validate();

    // Assert
    assert!(actual.is_ok());
}

#[test]
fn app_validate_reports_first_problem() {
    let new_app = App::new(
        "".to_string(),
        "".to_string(),
        None,
        "".to_string(),
        SearchMethod::Shortcut,
        OperatingSystem::Windows,
    );
    assert_eq!(new_app.validate().unwrap_err(), "App Name is empty.");
}

#[test]
fn app_description_lists_fields() {
    let app = App::new(
        "Chrome".to_string(),
        "chrome.exe".to_string(),
        Some("--args".to_string()),
        "%localappdata%".to_string(),
        SearchMethod::FolderSearch,
        OperatingSystem::Windows,
    );
    assert_eq!(
        app.to_description(),
        "App Name 'Chrome', Exe Name 'chrome.exe', Search Term '%localappdata%', \
         Search Method 'FolderSearch' Params '--args'"
    );
}

#[test]
fn app_description_without_params() {
    let app = App::new(
        "A".to_string(),
        "a.exe".to_string(),
        None,
        "t".to_string(),
        SearchMethod::Shortcut,
        OperatingSystem::MacOS,
    );
    assert_eq!(
        app.to_description(),
        "App Name 'A', Exe Name 'a.exe', Search Term 't', Search Method 'Shortcut'"
    );
}

#[test]
fn option_string_display() {
    assert_eq!(display_option_string(&Some("x".to_string())), "x");
    assert_eq!(display_option_string(&None), "N/A");
}

#[test]
fn datetime_fields_are_zero_padded() {
    assert_eq!(format_local_datetime(2024, 3, 7, 9, 5, 2), "2024-03-07 09:05:02");
    assert_eq!(format_local_datetime(999, 12, 31, 23, 59, 59), "0999-12-31 23:59:59");
}
