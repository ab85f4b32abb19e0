use vstd::prelude::*;

use crate::error::{ErrorKind, PluginError};
use crate::text::{
    ascii_folded, decimal, decimal_text, equal_ignoring_ascii_case, equals_ignoring_ascii_case,
    str_equals, trim, trim_end, trim_start, trim_text,
};

verus! {

/// A semantic version: `major.minor.patch`, with optional pre-release and build metadata
/// (each empty when absent).
#[derive(Debug, Clone, PartialEq, Eq)]
pub struct Version {
    pub major: u64,
    pub minor: u64,
    pub patch: u64,
    pub pre: String,
    pub build: String,
}

/// A version as plain values: major, minor, patch, pre-release, build metadata.
pub type VersionModel = (u64, u64, u64, Seq<char>, Seq<char>);

impl View for Version {
    type V = VersionModel;

    open spec fn view(&self) -> VersionModel {
        (self.major, self.minor, self.patch, self.pre@, self.build@)
    }
}

/// What `semver::Version::parse` yields for a text, as plain values; `None` where it fails.
pub uninterp spec fn semver_parse(s: Seq<char>) -> Option<VersionModel>;

pub open spec fn is_ascii_digit(c: char) -> bool {
    48 <= c as u32 <= 57
}

/// A character that may end a semantic version: a digit, an ASCII letter or `-`.
pub open spec fn is_identifier_char(c: char) -> bool {
    ||| is_ascii_digit(c)
    ||| 65 <= c as u32 <= 90
    ||| 97 <= c as u32 <= 122
    ||| c == '-'
}

/// Relies on semver::Version::parse (strict `major.minor.patch[-pre][+build]`), whose outcome
/// depends on the text alone; the parsed parts are handed over field by field. A text that it
/// accepts begins with a digit of the major number and ends with a digit, an ASCII letter or
/// `-`: the last number or identifier, as nothing may follow it and no part may be empty.
#[verifier::external_body]
fn parse_semver(s: &str) -> (r: Option<Version>)
    ensures
        r is Some <==> semver_parse(s@) is Some,
        r is Some ==> r->0@ == semver_parse(s@)->0,
        r is Some ==> (s@.len() > 0 && is_ascii_digit(s@[0]) && is_identifier_char(s@.last())),
{
    match semver::Version::parse(s) {
        Ok(v) => Some(Version {
            major: v.major,
            minor: v.minor,
            patch: v.patch,
            pre: v.pre.as_str().to_string(),
            build: v.build.as_str().to_string(),
        }),
        Err(_) => None,
    }
}

/// `sep` followed by `part`, or nothing where `part` is empty.
pub open spec fn tagged(sep: Seq<char>, part: Seq<char>) -> Seq<char> {
    if part.len() == 0 {
        Seq::empty()
    } else {
        sep + part
    }
}

/// The textual form of a version, as semantic versioning writes it.
pub open spec fn version_text(v: VersionModel) -> Seq<char> {
    decimal(v.0 as nat) + "."@ + decimal(v.1 as nat) + "."@ + decimal(v.2 as nat) + tagged(
        "-"@,
        v.3,
    ) + tagged("+"@, v.4)
}

fn append_tagged(s: &mut String, sep: &str, part: &String)
    ensures
        final(s)@ == old(s)@ + tagged(sep@, part@),
{
    if part.as_str().is_empty() {
        assert(old(s)@ + Seq::<char>::empty() == old(s)@);
    } else {
        s.append(sep);
        s.append(part.as_str());
        assert(old(s)@ + sep@ + part@ == old(s)@ + (sep@ + part@));
    }
}

impl Version {
    /// A release version without pre-release or build metadata.
    pub fn new(major: u64, minor: u64, patch: u64) -> (r: Version)
        ensures
            r@ == (major, minor, patch, Seq::<char>::empty(), Seq::<char>::empty()),
    {
        Version { major, minor, patch, pre: String::new(), build: String::new() }
    }

    /// A copy of this version.
    pub fn duplicate(&self) -> (r: Version)
        ensures
            r@ == self@,
    {
        Version {
            major: self.major,
            minor: self.minor,
            patch: self.patch,
            pre: self.pre.clone(),
            build: self.build.clone(),
        }
    }

    /// The textual form, `major.minor.patch[-pre][+build]`.
    pub fn to_string(&self) -> (r: String)
        ensures
            r@ == version_text(self@),
    {
        let mut s = decimal_text(self.major);
        s.append(".");
        let minor = decimal_text(self.minor);
        s.append(minor.as_str());
        s.append(".");
        let patch = decimal_text(self.patch);
        s.append(patch.as_str());
        append_tagged(&mut s, "-", &self.pre);
        append_tagged(&mut s, "+", &self.build);
        s
    }
}

/// How the language-server executable is to be obtained.
#[derive(Debug, Clone, PartialEq, Eq)]
pub enum SelectedVersion {
    /// The newest known release.
    Latest,
    /// A given release, downloaded unless already present.
    Specific(Version),
    /// An executable already installed at this path.
    Path(String),
    /// A resolved locator of the executable.
    Url(String),
}

/// Whether a configured version asks for the newest release: after trimming white space it is
/// empty, `latest` in any ASCII case, or `*`.
pub open spec fn means_latest(s: Seq<char>) -> bool {
    ||| trim(s).len() == 0
    ||| equal_ignoring_ascii_case(trim(s), "latest"@)
    ||| trim(s) == "*"@
}

/// Text that begins with a digit and ends with a version character (as every semantic
/// version does) never asks for the newest release.
pub proof fn lemma_version_text_is_not_latest(s: Seq<char>)
    requires
        s.len() > 0,
        is_ascii_digit(s[0]),
        is_identifier_char(s.last()),
    ensures
        !means_latest(s),
{
    reveal_strlit("latest");
    reveal_strlit("*");
    assert(trim_start(s) == s);
    assert(trim_end(s) == s);
    assert(trim(s) == s);
    assert(ascii_folded(s[0]) != ascii_folded("latest"@[0]));
    assert(s[0] != "*"@[0]);
}

impl SelectedVersion {
    /// Reads the configured version `s`, given what semantic-version parsing made of it
    /// (`parsed`) and whether `s` names an existing path (`path_exists`). Text that asks for the
    /// newest release gives `Latest`, a semantic version gives `Specific`, and any other text
    /// names a path, which must exist.
    pub fn select(s: &str, parsed: Option<Version>, path_exists: bool) -> (r: Result<
        SelectedVersion,
        PluginError,
    >)
        ensures
            means_latest(s@) ==> r matches Ok(SelectedVersion::Latest),
            !means_latest(s@) && parsed is Some ==> (r matches Ok(SelectedVersion::Specific(v))
                && v@ == parsed->0@),
            !means_latest(s@) && parsed is None && path_exists ==> (r matches Ok(
                SelectedVersion::Path(p),
            ) && p@ == s@),
            !means_latest(s@) && parsed is None && !path_exists ==> (r matches Err(e) && e@ == (
                ErrorKind::InvalidVersion,
                s@,
            )),
    {
        let t = trim_text(s);
        if t.is_empty() || equals_ignoring_ascii_case(t, "latest") || str_equals(t, "*") {
            return Ok(SelectedVersion::Latest);
        }
        match parsed {
            Some(v) => Ok(SelectedVersion::Specific(v)),
            None => {
                if path_exists {
                    Ok(SelectedVersion::Path(s.to_owned()))
                } else {
                    Err(PluginError::new(ErrorKind::InvalidVersion, s.to_owned()))
                }
            },
        }
    }

    /// Reads the configured version `s`: `select` over its semantic-version parse.
    /// `path_exists` is the caller's answer for the path `s`. Every semantic version gives
    /// `Specific`, whether or not a path of that name exists.
    pub fn parse(s: &str, path_exists: bool) -> (r: Result<SelectedVersion, PluginError>)
        ensures
            means_latest(s@) ==> r matches Ok(SelectedVersion::Latest),
            semver_parse(s@) is Some ==> (r matches Ok(SelectedVersion::Specific(v)) && v@
                == semver_parse(s@)->0),
            !means_latest(s@) && semver_parse(s@) is None && path_exists ==> (r matches Ok(
                SelectedVersion::Path(p),
            ) && p@ == s@),
            !means_latest(s@) && semver_parse(s@) is None && !path_exists ==> (r matches Err(e)
                && e@ == (ErrorKind::InvalidVersion, s@)),
    {
        let parsed = parse_semver(s);
        proof {
            if parsed is Some {
                lemma_version_text_is_not_latest(s@);
            }
        }
        SelectedVersion::select(s, parsed, path_exists)
    }
}

} // verus!
