//! The application descriptor and version metadata records, their
//! validation, and the display helpers for them.

use vstd::prelude::*;
use vstd::string::*;
use crate::chars::chars_string;
use crate::digits::{dec_rep, u32_dec_chars};
use crate::version::{parse_file_version_to_i32, parse_version_spec, version_string_spec};

verus! {

/// The version metadata probed from one candidate executable or bundle.
#[derive(Clone, Debug)]
pub struct FileVersion {
    pub app_description: String,
    pub path: String,
    pub major: u32,
    pub minor: u32,
    pub build: u32,
    pub revision: u32,
}

impl FileVersion {
    /// The four version components as a tuple, for ranking.
    pub open spec fn tuple(&self) -> (u32, u32, u32, u32) {
        (self.major, self.minor, self.build, self.revision)
    }

    /// Build a record from a version string. A string that does not parse
    /// yields the sentinel tuple `(0, 0, 0, 0)` — a malformed version never
    /// excludes a candidate, it only ranks last.
    pub fn new(app_description: String, path: String, version: String) -> (r: Self)
        ensures
            r.app_description == app_description,
            r.path == path,
            match parse_version_spec(version@) {
                Some(t) => r.tuple() == t,
                None => r.tuple() == (0u32, 0u32, 0u32, 0u32),
            },
    {
        match parse_file_version_to_i32(version.as_str()) {
            Some((major, minor, build, revision)) => Self {
                app_description,
                path,
                major,
                minor,
                build,
                revision,
            },
            None => Self { app_description, path, major: 0, minor: 0, build: 0, revision: 0 },
        }
    }

    /// The zero-padded `major.minor.build.revision` rendering.
    pub fn display_version(&self) -> (r: String)
        ensures
            r@ == version_string_spec(self.major, self.minor, self.build, self.revision),
    {
        let mut v = u32_dec_chars(self.major);
        let mut part = u32_dec_chars(self.minor);
        v.push('.');
        v.append(&mut part);
        let mut part = u32_dec_chars(self.build);
        v.push('.');
        v.append(&mut part);
        let mut part = u32_dec_chars(self.revision);
        v.push('.');
        v.append(&mut part);
        proof {
            assert(v@ =~= dec_rep(self.major as nat) + seq!['.'] + dec_rep(self.minor as nat)
                + seq!['.'] + dec_rep(self.build as nat) + seq!['.'] + dec_rep(
                self.revision as nat,
            ));
        }
        chars_string(&v)
    }
}

/// The discovery strategy for an application: a closed set, each member
/// mapping to exactly one resolution algorithm.
#[derive(Clone, Copy, Debug, PartialEq, Eq, Structural)]
pub enum SearchMethod {
    /// Query the OS package manager for the install location.
    PSGetApp,
    /// Recursively search a root folder for the executable and rank matches.
    FolderSearch,
    /// Treat the expanded search term plus executable name as a literal path.
    Shortcut,
}

impl SearchMethod {
    /// The strategy's display name.
    pub open spec fn name_spec(&self) -> Seq<char> {
        match self {
            SearchMethod::PSGetApp => "PSGetApp"@,
            SearchMethod::FolderSearch => "FolderSearch"@,
            SearchMethod::Shortcut => "Shortcut"@,
        }
    }

    /// Executable form of `name_spec`.
    pub fn name(&self) -> (r: String)
        ensures
            r@ == self.name_spec(),
    {
        match self {
            SearchMethod::PSGetApp => "PSGetApp".to_owned(),
            SearchMethod::FolderSearch => "FolderSearch".to_owned(),
            SearchMethod::Shortcut => "Shortcut".to_owned(),
        }
    }
}

/// The host operating system tag carried by a descriptor.
#[derive(Clone, Copy, Debug, PartialEq, Eq, Structural)]
pub enum OperatingSystem {
    Windows,
    MacOS,
    Unknown,
}

impl OperatingSystem {
    /// The tag's display name.
    pub open spec fn name_spec(&self) -> Seq<char> {
        match self {
            OperatingSystem::Windows => "Windows"@,
            OperatingSystem::MacOS => "MacOS"@,
            OperatingSystem::Unknown => "Unknown"@,
        }
    }

    /// Executable form of `name_spec`.
    pub fn name(&self) -> (r: String)
        ensures
            r@ == self.name_spec(),
    {
        match self {
            OperatingSystem::Windows => "Windows".to_owned(),
            OperatingSystem::MacOS => "MacOS".to_owned(),
            OperatingSystem::Unknown => "Unknown".to_owned(),
        }
    }
}

/// The immutable descriptor of one registered application: what to run, how
/// to find it, and what was cached from the last resolution.
#[derive(Clone, Debug)]
pub struct App {
    pub id: i32,
    pub app_name: String,
    pub exe_name: String,
    pub params: Option<String>,
    pub search_term: String,
    pub search_method: SearchMethod,
    pub app_path: Option<String>,
    pub app_description: Option<String>,
    pub app_version: Option<String>,
    /// Seconds since the Unix epoch, when known.
    pub last_opened: Option<i64>,
    /// Seconds since the Unix epoch, when known.
    pub last_updated: Option<i64>,
    pub operating_system: OperatingSystem,
}

/// A descriptor is well formed when its name fields are non-empty and the
/// package-manager strategy is only asked for on Windows.
pub open spec fn valid_app(app: &App) -> bool {
    app.app_name@.len() > 0 && app.exe_name@.len() > 0 && app.search_term@.len() > 0 && !(
    app.search_method == SearchMethod::PSGetApp && app.operating_system
        != OperatingSystem::Windows)
}

impl App {
    /// A fresh descriptor with no cached resolution data.
    pub fn new(
        app_name: String,
        exe_name: String,
        params: Option<String>,
        search_term: String,
        search_method: SearchMethod,
        operating_system: OperatingSystem,
    ) -> (r: Self)
        ensures
            r.id == 0,
            r.app_name == app_name,
            r.exe_name == exe_name,
            r.params == params,
            r.search_term == search_term,
            r.search_method == search_method,
            r.operating_system == operating_system,
            r.app_path is None,
            r.app_description is None,
            r.app_version is None,
            r.last_opened is None,
            r.last_updated is None,
    {
        Self {
            id: 0,
            app_name,
            exe_name,
            params,
            search_term,
            search_method,
            app_path: None,
            app_description: None,
            app_version: None,
            last_opened: None,
            last_updated: None,
            operating_system,
        }
    }

    /// Check the descriptor, reporting the first problem found.
    pub fn validate(&self) -> (r: Result<(), String>)
        ensures
            r is Ok <==> valid_app(self),
            self.app_name@.len() == 0 ==> (r matches Err(m) && m@ == "App Name is empty."@),
            self.app_name@.len() > 0 && self.exe_name@.len() == 0 ==> (r matches Err(m) && m@
                == "Exe Name is empty."@),
            self.app_name@.len() > 0 && self.exe_name@.len() > 0 && self.search_term@.len() == 0
                ==> (r matches Err(m) && m@ == "Search Term is empty."@),
            self.app_name@.len() > 0 && self.exe_name@.len() > 0 && self.search_term@.len() > 0
                && self.search_method == SearchMethod::PSGetApp && self.operating_system
                != OperatingSystem::Windows ==> (r matches Err(m) && m@ == "Search method '"@
                + self.search_method.name_spec() + "' is only supported on Windows"@),
    {
        if self.app_name.as_str().is_empty() {
            return Err("App Name is empty.".to_owned());
        }
        if self.exe_name.as_str().is_empty() {
            return Err("Exe Name is empty.".to_owned());
        }
        if self.search_term.as_str().is_empty() {
            return Err("Search Term is empty.".to_owned());
        }
        if self.search_method == SearchMethod::PSGetApp && !(self.operating_system
            == OperatingSystem::Windows) {
            let mut m = "Search method '".to_owned();
            let n = self.search_method.name();
            m.append(n.as_str());
            m.append("' is only supported on Windows");
            proof {
                assert(m@ =~= "Search method '"@ + self.search_method.name_spec()
                    + "' is only supported on Windows"@);
            }
            return Err(m);
        }
        Ok(())
    }

    /// One-line description of the descriptor for messages.
    pub fn to_description(&self) -> (r: String)
        ensures
            r@ == description_spec(self),
    {
        let mut m = "App Name '".to_owned();
        m.append(self.app_name.as_str());
        m.append("', Exe Name '");
        m.append(self.exe_name.as_str());
        m.append("', Search Term '");
        m.append(self.search_term.as_str());
        m.append("', Search Method '");
        let n = self.search_method.name();
        m.append(n.as_str());
        m.append("'");
        match &self.params {
            Some(p) => {
                m.append(" Params '");
                m.append(p.as_str());
                m.append("'");
                proof {
                    assert(m@ =~= description_spec(self));
                }
            },
            None => {
                proof {
                    assert(m@ =~= description_spec(self));
                }
            },
        }
        m
    }
}

/// What `to_description` produces.
pub open spec fn description_spec(app: &App) -> Seq<char> {
    "App Name '"@ + app.app_name@ + "', Exe Name '"@ + app.exe_name@ + "', Search Term '"@
        + app.search_term@ + "', Search Method '"@ + app.search_method.name_spec() + "'"@ + (
    match app.params {
        Some(p) => " Params '"@ + p@ + "'"@,
        None => Seq::<char>::empty(),
    })
}

/// An optional string for display: the value itself, or a placeholder.
pub fn display_option_string(value: &Option<String>) -> (r: String)
    ensures
        match value {
            Some(s) => r@ == s@,
            None => r@ == "N/A"@,
        },
{
    match value {
        Some(s) => s.clone(),
        None => "N/A".to_owned(),
    }
}

/// `dec_rep(n)` left-padded with zeros to at least `w` characters.
pub open spec fn padded_dec(n: nat, w: nat) -> Seq<char> {
    if dec_rep(n).len() >= w {
        dec_rep(n)
    } else {
        Seq::new((w - dec_rep(n).len()) as nat, |i: int| '0') + dec_rep(n)
    }
}

/// Render `n` zero-padded to at least `w` digits.
pub fn padded_u32(n: u32, w: usize) -> (r: Vec<char>)
    ensures
        r@ == padded_dec(n as nat, w as nat),
{
    let digits = u32_dec_chars(n);
    let mut r: Vec<char> = Vec::new();
    let mut k: usize = digits.len();
    while k < w
        invariant
            digits@ == dec_rep(n as nat),
            digits.len() <= k <= vstd::math::max(digits.len() as int, w as int),
            r@ =~= Seq::new((k - digits@.len()) as nat, |i: int| '0'),
        decreases w - k,
    {
        r.push('0');
        assert(r@ =~= Seq::new((k + 1 - digits@.len()) as nat, |i: int| '0'));
        k = k + 1;
    }
    let mut d = digits;
    r.append(&mut d);
    proof {
        if dec_rep(n as nat).len() >= w {
            assert(r@ =~= dec_rep(n as nat));
        }
    }
    r
}

/// What `format_local_datetime` produces: `yyyy-mm-dd hh:mm:ss`, each field
/// zero-padded.
pub open spec fn datetime_spec(y: u32, mo: u32, d: u32, h: u32, mi: u32, s: u32) -> Seq<char> {
    padded_dec(y as nat, 4) + seq!['-'] + padded_dec(mo as nat, 2) + seq!['-'] + padded_dec(
        d as nat,
        2,
    ) + seq![' '] + padded_dec(h as nat, 2) + seq![':'] + padded_dec(mi as nat, 2) + seq![':']
        + padded_dec(s as nat, 2)
}

/// Format already-converted local calendar fields for display.
pub fn format_local_datetime(y: u32, mo: u32, d: u32, h: u32, mi: u32, s: u32) -> (r: String)
    ensures
        r@ == datetime_spec(y, mo, d, h, mi, s),
{
    let mut v = padded_u32(y, 4);
    v.push('-');
    let mut part = padded_u32(mo, 2);
    v.append(&mut part);
    v.push('-');
    let mut part = padded_u32(d, 2);
    v.append(&mut part);
    v.push(' ');
    let mut part = padded_u32(h, 2);
    v.append(&mut part);
    v.push(':');
    let mut part = padded_u32(mi, 2);
    v.append(&mut part);
    v.push(':');
    let mut part = padded_u32(s, 2);
    v.append(&mut part);
    proof {
        assert(v@ =~= datetime_spec(y, mo, d, h, mi, s));
    }
    chars_string(&v)
}

} // verus!
