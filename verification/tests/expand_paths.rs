//! Path template expansion, Dropbox JSON extraction, path joining and
//! export file naming.

use app_lemonator::data::OperatingSystem;
use app_lemonator::expand::{
    get_base_folder, get_dropbox_folder_from_json, get_local_app_data_folder,
    get_roaming_app_data_folder, BaseFolderType, EnvContext,
};
use app_lemonator::fsops::{
    choose_export_file_name, get_dropbox_config_path, get_export_file_name, get_full_path,
};

fn empty_ctx() -> EnvContext {
    EnvContext {
        os: OperatingSystem::Windows,
        local_app_data: None,
        roaming_app_data: None,
        program_files: None,
        program_files_x86: None,
        win_dir: None,
        home_path: None,
        temp: None,
        dropbox_info_json: None,
    }
}

#[test]
fn check_roaming_app_data_folder() {
    // Arrange
    let mut ctx = empty_ctx();
    ctx.roaming_app_data = Some(r"C:\Users\x\AppData\Roaming".to_string());
    let source_path = r"%appdata%\JetBrains";
    let expected = get_full_path(&get_roaming_app_data_folder(&ctx), "JetBrains");

    // Act
    let actual = get_base_folder(&ctx, source_path);

    // Assert
    assert_eq!(actual, expected);
}

#[test]
fn check_local_app_data_folder() {
    // Arrange
    let mut ctx = empty_ctx();
    ctx.local_app_data = Some(r"C:\Users\x\AppData\Local".to_string());
    let source_path = r"%localappdata%\JetBrains";
    let expected = get_full_path(&get_local_app_data_folder(&ctx), "JetBrains");

    // Act
    let actual = get_base_folder(&ctx, source_path);

    // Assert
    assert_eq!(actual, expected);
}

#[test]
fn hyphenated_token_expands_too() {
    let mut ctx = empty_ctx();
    ctx.local_app_data = Some(r"C:\Users\x\AppData\Local".to_string());
    let actual = get_base_folder(&ctx, r"%local-app-data%\JetBrains");
    assert_eq!(actual, r"C:\Users\x\AppData\Local\JetBrains");
}

#[test]
fn token_matching_is_case_insensitive() {
    let mut ctx = empty_ctx();
    ctx.win_dir = Some(r"C:\Windows".to_string());
    assert_eq!(get_base_folder(&ctx, r"%WinDir%\System32"), r"C:\Windows\System32");
}

#[test]
fn unknown_token_expands_to_empty() {
    let ctx = empty_ctx();
    assert_eq!(get_base_folder(&ctx, r"%nosuchtoken%\x"), r"\x");
}

#[test]
fn unset_variable_expands_to_empty() {
    let ctx = empty_ctx();
    assert_eq!(get_base_folder(&ctx, r"%windir%\System32"), r"\System32");
}

#[test]
fn no_token_passes_through() {
    let ctx = empty_ctx();
    assert_eq!(get_base_folder(&ctx, r"C:\plain\path"), r"C:\plain\path");
}

#[test]
fn check_dropbox_folders_both_set() {
    // Arrange
    let expected_personal = r"C:\DropBox\Personal";
    let expected_business = r"C:\DropBox\Business";
    let json_data = r#"
{
    "personal": {
        "path": "C:\\DropBox\\Personal",
        "host": 123456789,
        "is_team": false,
        "subscription_type": "Basic"
    },
    "business": {
        "path": "C:\\DropBox\\Business",
        "host": 123456789,
        "is_team": true,
        "subscription_type": "Business"
    }
}"#;

    // Act
    let actual_personal =
        get_dropbox_folder_from_json(BaseFolderType::PersonalDropbox, "test", json_data);
    let actual_business =
        get_dropbox_folder_from_json(BaseFolderType::BusinessDropbox, "test", json_data);

    // Assert
    assert_eq!(actual_personal, expected_personal);
    assert_eq!(actual_business, expected_business);
}

#[test]
fn check_dropbox_folders_personal_set() {
    // Arrange
    let expected_personal = r"C:\DropBox\Personal";
    let expected_business = "";
    let json_data = r#"
{
    "personal": {
        "path": "C:\\DropBox\\Personal",
        "host": 123456789,
        "is_team": false,
        "subscription_type": "Basic"
    }
}"#;

    // Act
    let actual_personal =
        get_dropbox_folder_from_json(BaseFolderType::PersonalDropbox, "test", json_data);
    let actual_business =
        get_dropbox_folder_from_json(BaseFolderType::BusinessDropbox, "test", json_data);

    // Assert
    assert_eq!(actual_personal, expected_personal);
    assert_eq!(actual_business, expected_business);
}

#[test]
fn check_dropbox_folders_business_set() {
    // Arrange
    let expected_personal = "";
    let expected_business = r"C:\DropBox\Business";
    let json_data = r#"
{
    "business": {
        "path": "C:\\DropBox\\Business",
        "host": 123456789,
        "is_team": true,
        "subscription_type": "Business"
    }
}"#;

    // Act
    let actual_personal =
        get_dropbox_folder_from_json(BaseFolderType::PersonalDropbox, "test", json_data);
    let actual_business =
        get_dropbox_folder_from_json(BaseFolderType::BusinessDropbox, "test", json_data);

    // Assert
    assert_eq!(actual_personal, expected_personal);
    assert_eq!(actual_business, expected_business);
}

#[test]
fn check_dropbox_folders_none_set() {
    // Arrange
    let expected_personal = "";
    let expected_business = "";
    let json_data = r#" { }"#;

    // Act
    let actual_personal =
        get_dropbox_folder_from_json(BaseFolderType::PersonalDropbox, "test", json_data);
    let actual_business =
        get_dropbox_folder_from_json(BaseFolderType::BusinessDropbox, "test", json_data);

    // Assert
    assert_eq!(actual_personal, expected_personal);
    assert_eq!(actual_business, expected_business);
}

#[test]
fn dropbox_simple_personal_document() {
    let json = r#"{"personal":{"path":"C:\\D\\P"}}"#;
    assert_eq!(
        get_dropbox_folder_from_json(BaseFolderType::BusinessDropbox, "test", json),
        ""
    );
    assert_eq!(
        get_dropbox_folder_from_json(BaseFolderType::PersonalDropbox, "test", json),
        r"C:\D\P"
    );
}

#[test]
fn dropbox_malformed_document_is_empty() {
    assert_eq!(
        get_dropbox_folder_from_json(BaseFolderType::PersonalDropbox, "test", "not json"),
        ""
    );
}

#[test]
fn dropbox_token_expands_from_context_json() {
    let mut ctx = empty_ctx();
    ctx.dropbox_info_json = Some(r#"{"personal":{"path":"C:\\D\\P"}}"#.to_string());
    assert_eq!(get_base_folder(&ctx, r"%personaldropbox%\notes"), r"C:\D\P\notes");
    assert_eq!(get_base_folder(&ctx, r"%businessdropbox%\notes"), r"\notes");
}

#[test]
fn dropbox_config_path_absent_without_files() {
    let mut ctx = empty_ctx();
    ctx.roaming_app_data = Some("/nonexistent_dir_aj3k".to_string());
    ctx.local_app_data = Some("/nonexistent_dir_aj3k_local".to_string());
    assert_eq!(get_dropbox_config_path(&ctx), None);
}

#[test]
fn full_path_join_rules() {
    assert_eq!(get_full_path(r"C:\base", "file.txt"), r"C:\base\file.txt");
    assert_eq!(get_full_path(r"C:\base\", "file.txt"), r"C:\base\file.txt");
    assert_eq!(get_full_path("dir/", "file.txt"), "dir/file.txt");
    assert_eq!(get_full_path("", "file.txt"), "file.txt");
}

#[test]
fn full_path_absolute_name_replaces_base() {
    assert_eq!(get_full_path("a", "/abs"), "/abs");
    assert_eq!(get_full_path(r"C:\base", r"\rooted\x.exe"), r"\rooted\x.exe");
    assert_eq!(get_full_path(r"C:\base", r"D:\other\x.exe"), r"D:\other\x.exe");
}

#[test]
fn get_export_file_name_full_path() {
    // Arrange
    let source = r"C:\Windows\test.json";
    let default_path = r"C:\Users\x\Documents";
    let default_file_name = "app-lemonator-2024-01-01-unique.json";

    // Act: the requested parent folder is taken as present.
    let actual = choose_export_file_name(source, default_path, default_file_name, true);

    // Assert
    assert_eq!(actual, source);
}

#[test]
fn get_export_file_name_just_path() {
    // Arrange
    let source = r"C:\Windows\";
    let default_path = r"C:\Users\x\Documents";
    let default_file_name = "app-lemonator-2024-01-01-unique.json";
    let expected = get_full_path(source, default_file_name);

    // Act: the requested folder is taken as present.
    let actual = choose_export_file_name(source, default_path, default_file_name, true);

    // Assert
    assert_eq!(actual, expected);
}

#[test]
fn get_export_file_name_just_file_name() {
    // Arrange
    let source = r"test.json";
    let default_path = r"C:\Users\x\Documents";
    let default_file_name = "app-lemonator-2024-01-01-unique.json";
    let expected = get_full_path(default_path, source);

    // Act: a bare file name has no parent folder to use.
    let actual = choose_export_file_name(source, default_path, default_file_name, false);

    // Assert
    assert_eq!(actual, expected);
}

#[test]
fn get_export_file_name_empty() {
    // Arrange
    let source = "";
    let default_path = r"C:\Users\x\Documents";
    let default_file_name = "app-lemonator-2024-01-01-unique.json";
    let expected = get_full_path(default_path, default_file_name);

    // Act: an empty request falls back to the default folder and name.
    let actual = choose_export_file_name(source, default_path, default_file_name, false);

    // Assert
    assert_eq!(actual, expected);
}

#[test]
fn export_file_name_consults_the_disk() {
    // "" is not a directory anywhere, so the default folder wins.
    let actual = get_export_file_name("", "/tmp", "out.json");
    assert_eq!(actual, get_full_path("/tmp", "out.json"));
    // "src" exists as a directory in the crate root the tests run from.
    let actual = get_export_file_name("src", "/tmp", "out.json");
    assert_eq!(actual, get_full_path("src", "out.json"));
}
