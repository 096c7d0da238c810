//! Probing a candidate executable or bundle for its version tuple and
//! description, per platform: Windows reads the binary's version resource
//! through the package-query tool, macOS reads the bundle's property list.

use vstd::prelude::*;
use vstd::string::*;
use crate::chars::str_chars;
use crate::data::{FileVersion, OperatingSystem};
use crate::digits::chars_value;
use crate::errors::ResolveError;
use crate::shell::{get_property_from_stdout, property_spec, run_powershell_cmd};
use crate::version::{is_numeric_component, parse_version_spec};

verus! {

/// Relies on plist's `Value::from_file`, `as_dictionary`, `Dictionary::get`
/// and `as_string`: the `CFBundleShortVersionString` and `CFBundleName`
/// strings of the bundle's `Contents/Info.plist`, empty when a key is
/// absent; an unreadable or unparsable file is the error's description.
/// What comes back depends on the disk.
#[verifier::external_body]
fn read_bundle_info(full_path: &str) -> Result<(String, String), String> {
    let p = std::path::Path::new(full_path).join("Contents").join("Info.plist");
    let v = plist::Value::from_file(p).map_err(|e| e.to_string())?;
    let d = v.as_dictionary();
    let version = d.and_then(|d| d.get("CFBundleShortVersionString")).and_then(|x| x.as_string());
    let name = d.and_then(|d| d.get("CFBundleName")).and_then(|x| x.as_string());
    Ok((version.unwrap_or("").to_string(), name.unwrap_or("").to_string()))
}

/// The tuple the four Windows version fields denote: their values when
/// every field is a numeric component, the sentinel tuple when any one of
/// them is not — a non-numeric component anywhere fails the whole parse.
pub open spec fn windows_version_tuple(
    props: (Seq<char>, Seq<char>, Seq<char>, Seq<char>),
) -> (u32, u32, u32, u32) {
    if is_numeric_component(props.0) && is_numeric_component(props.1) && is_numeric_component(
        props.2,
    ) && is_numeric_component(props.3) {
        (
            chars_value(props.0) as u32,
            chars_value(props.1) as u32,
            chars_value(props.2) as u32,
            chars_value(props.3) as u32,
        )
    } else {
        (0u32, 0u32, 0u32, 0u32)
    }
}

/// Decide the version tuple from the four field strings the tool printed,
/// as `windows_version_tuple` describes: one non-numeric field collapses
/// the whole tuple to the sentinel, so that a malformed version ranks last
/// instead of winning on its readable fields.
pub fn decide_windows_tuple(major: &str, minor: &str, build: &str, revision: &str) -> (r: (
    u32,
    u32,
    u32,
    u32,
))
    ensures
        r == windows_version_tuple((major@, minor@, build@, revision@)),
{
    let a = crate::digits::parse_u32_chars(&str_chars(major));
    let b = crate::digits::parse_u32_chars(&str_chars(minor));
    let c = crate::digits::parse_u32_chars(&str_chars(build));
    let d = crate::digits::parse_u32_chars(&str_chars(revision));
    match (a, b, c, d) {
        (Some(a), Some(b), Some(c), Some(d)) => (a, b, c, d),
        _ => (0, 0, 0, 0),
    }
}

/// The four property prefixes of the Windows version query, in field order.
pub open spec fn version_props_spec(lines: Seq<Seq<char>>) -> (Seq<char>, Seq<char>, Seq<
    char,
>, Seq<char>) {
    (
        property_spec(lines, "Major    : "@),
        property_spec(lines, "Minor    : "@),
        property_spec(lines, "Build    : "@),
        property_spec(lines, "Revision : "@),
    )
}

/// The exact command handed to the tool to read a file's version resource.
pub fn version_query_cmd(full_path: &str) -> (r: String)
    ensures
        r@ == "(Get-Item \""@ + full_path@
            + "\").VersionInfo.FileVersionRaw | Format-List -Property Major, Minor, Build, Revision"@,
{
    let mut cmd = "(Get-Item \"".to_owned();
    cmd.append(full_path);
    cmd.append(
        "\").VersionInfo.FileVersionRaw | Format-List -Property Major, Minor, Build, Revision",
    );
    proof {
        assert(cmd@ =~= "(Get-Item \""@ + full_path@
            + "\").VersionInfo.FileVersionRaw | Format-List -Property Major, Minor, Build, Revision"@);
    }
    cmd
}

/// The exact command handed to the tool to read a file's description.
pub fn description_query_cmd(full_path: &str) -> (r: String)
    ensures
        r@ == "(Get-Item \""@ + full_path@
            + "\").VersionInfo | Format-List -Property FileDescription"@,
{
    let mut cmd = "(Get-Item \"".to_owned();
    cmd.append(full_path);
    cmd.append("\").VersionInfo | Format-List -Property FileDescription");
    proof {
        assert(cmd@ =~= "(Get-Item \""@ + full_path@
            + "\").VersionInfo | Format-List -Property FileDescription"@);
    }
    cmd
}

/// Query the Windows version resource of the file: the `Major`, `Minor`,
/// `Build` and `Revision` fields as the tool printed them, via exactly the
/// command `version_query_cmd` builds. Off Windows this is
/// `UnsupportedPlatform`; on Windows the tool's output decides.
pub fn get_windows_file_version_information(os: OperatingSystem, full_path: &str) -> (r: Result<
    (String, String, String, String),
    ResolveError,
>)
    ensures
        os != OperatingSystem::Windows ==> (r matches Err(e) && e matches
            ResolveError::UnsupportedPlatform { os_name } && os_name@ == os.name_spec()),
        os == OperatingSystem::Windows ==> (r matches Err(e) ==> e matches
            ResolveError::ExternalQueryFailed { .. }),
        r matches Ok(t) ==> os == OperatingSystem::Windows && exists|lines: Seq<Seq<char>>|
            (t.0@, t.1@, t.2@, t.3@) == version_props_spec(lines),
{
    let cmd = version_query_cmd(full_path);
    match run_powershell_cmd(os, cmd.as_str()) {
        Err(e) => Err(e),
        Ok(lines) => {
            let major = get_property_from_stdout(&lines, "Major    : ");
            let minor = get_property_from_stdout(&lines, "Minor    : ");
            let build = get_property_from_stdout(&lines, "Build    : ");
            let revision = get_property_from_stdout(&lines, "Revision : ");
            proof {
                let lv = lines.deep_view();
                assert((major@, minor@, build@, revision@) == version_props_spec(lv));
            }
            Ok((major, minor, build, revision))
        },
    }
}

/// Query the file-description metadata of the file, via exactly the command
/// `description_query_cmd` builds. Off Windows this is
/// `UnsupportedPlatform`; on Windows the tool's output decides.
pub fn get_windows_file_description_information(os: OperatingSystem, full_path: &str) -> (r: Result<
    String,
    ResolveError,
>)
    ensures
        os != OperatingSystem::Windows ==> (r matches Err(e) && e matches
            ResolveError::UnsupportedPlatform { os_name } && os_name@ == os.name_spec()),
        os == OperatingSystem::Windows ==> (r matches Err(e) ==> e matches
            ResolveError::ExternalQueryFailed { .. }),
        r matches Ok(d) ==> os == OperatingSystem::Windows && exists|lines: Seq<Seq<char>>|
            d@ == property_spec(lines, "FileDescription :"@),
{
    let cmd = description_query_cmd(full_path);
    match run_powershell_cmd(os, cmd.as_str()) {
        Err(e) => Err(e),
        Ok(lines) => {
            let description = get_property_from_stdout(&lines, "FileDescription :");
            Ok(description)
        },
    }
}

/// Read a macOS bundle's version string and display name from its property
/// list. What comes back depends on the disk; an unreadable bundle is
/// `ExternalQueryFailed`.
pub fn get_macos_file_version_information(full_path: &str) -> (r: Result<
    (String, String),
    ResolveError,
>)
    ensures
        r matches Err(e) ==> e matches ResolveError::ExternalQueryFailed { .. },
{
    match read_bundle_info(full_path) {
        Ok(pair) => Ok(pair),
        Err(detail) => Err(ResolveError::ExternalQueryFailed { detail }),
    }
}

/// Probe one candidate path for its version record.
///
/// On Windows the four version fields and the description come from the
/// package-query tool; a non-numeric field anywhere fails the whole parse
/// and collapses the tuple to the sentinel. On macOS the bundle's version
/// string is parsed whole, with the same degradation. Either way a
/// malformed version never excludes the candidate, it only ranks last. Any
/// other platform is `UnsupportedPlatform`.
pub fn get_file_version(os: OperatingSystem, full_path: &str) -> (r: Result<
    FileVersion,
    ResolveError,
>)
    ensures
        os == OperatingSystem::Unknown ==> (r matches Err(e) && e matches
            ResolveError::UnsupportedPlatform { os_name } && os_name@ == os.name_spec()),
        os != OperatingSystem::Unknown ==> (r matches Err(e) ==> e matches
            ResolveError::ExternalQueryFailed { .. }),
        r matches Ok(fv) ==> fv.path@ == full_path@,
        os == OperatingSystem::Windows ==> (r matches Ok(fv) ==> exists|lines: Seq<Seq<char>>|
            fv.tuple() == windows_version_tuple(#[trigger] version_props_spec(lines))),
        os == OperatingSystem::MacOS ==> (r matches Ok(fv) ==> exists|version: Seq<char>|
            match #[trigger] parse_version_spec(version) {
                Some(t) => fv.tuple() == t,
                None => fv.tuple() == (0u32, 0u32, 0u32, 0u32),
            }),
{
    match os {
        OperatingSystem::Windows => {
            let (major, minor, build, revision) = match get_windows_file_version_information(
                os,
                full_path,
            ) {
                Ok(t) => t,
                Err(e) => {
                    return Err(e);
                },
            };
            let app_description = match get_windows_file_description_information(os, full_path) {
                Ok(d) => d,
                Err(e) => {
                    return Err(e);
                },
            };
            let t = decide_windows_tuple(
                major.as_str(),
                minor.as_str(),
                build.as_str(),
                revision.as_str(),
            );
            let fv = FileVersion {
                app_description,
                path: full_path.to_owned(),
                major: t.0,
                minor: t.1,
                build: t.2,
                revision: t.3,
            };
            proof {
                let lines = choose|lines: Seq<Seq<char>>|
                    (major@, minor@, build@, revision@) == version_props_spec(lines);
                assert(fv.tuple() == windows_version_tuple(version_props_spec(lines)));
            }
            Ok(fv)
        },
        OperatingSystem::MacOS => {
            let (version, app_description) = match get_macos_file_version_information(full_path) {
                Ok(t) => t,
                Err(e) => {
                    return Err(e);
                },
            };
            let ghost vv = version@;
            let fv = FileVersion::new(app_description, full_path.to_owned(), version);
            proof {
                assert(match parse_version_spec(vv) {
                    Some(t) => fv.tuple() == t,
                    None => fv.tuple() == (0u32, 0u32, 0u32, 0u32),
                });
            }
            Ok(fv)
        },
        OperatingSystem::Unknown => Err(
            ResolveError::UnsupportedPlatform { os_name: os.name() },
        ),
    }
}

} // verus!
