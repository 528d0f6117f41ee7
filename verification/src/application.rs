//! Applications whose versions are audited: the version-detection
//! command, the extraction pattern, and the optional end-of-life lookup
//! configuration.

use vstd::prelude::*;

use crate::end_of_life;

verus! {

/// What the extraction pattern captures under the group named
/// `version`, as a function of the pattern and the input alone; `None`
/// both when the pattern is invalid and when nothing matches.
pub uninterp spec fn version_capture_of(pattern: Seq<char>, text: Seq<char>) -> Option<Seq<char>>;

/// Relies on `regex::Regex::captures` and `Captures::name`: the text of
/// the capture group named `version` of the leftmost match depends only
/// on the pattern and the input.
#[verifier::external_body]
pub(crate) fn regex_capture_version(pattern: &str, input: &str) -> (r: Option<String>)
    ensures
        match r {
            Some(s) => version_capture_of(pattern@, input@) == Some(s@),
            None => version_capture_of(pattern@, input@) is None,
        },
{
    let re = match regex::Regex::new(pattern) {
        Ok(re) => re,
        Err(_) => return None,
    };
    let caps = match re.captures(input) {
        Some(c) => c,
        None => return None,
    };
    match caps.name("version") {
        Some(m) => Some(m.as_str().to_owned()),
        None => None,
    }
}

/// The version could not be captured from the command output.
#[derive(Debug, PartialEq, Eq)]
pub struct RegexCaptureError;

impl RegexCaptureError {
    /// A short operator-facing description of the failure.
    pub fn message(&self) -> (m: &'static str)
        ensures
            m@ == "Could not capture version from input"@,
    {
        "Could not capture version from input"
    }
}

/// Configuration details for an application.
pub struct Application {
    /// A pattern with a capture group named `version` for pulling
    /// version numbers out of command output.
    pub version_pattern: String,
    /// The command to run to determine the current version.
    pub version_command: String,
    /// An optional end-of-life lookup configuration.
    pub eol: Option<end_of_life::EolConfig>,
}

impl Application {
    /// Given the output of `version_command`, retrieves the version
    /// number captured by the pattern's `version` group. Fails exactly
    /// when the pattern captures nothing on this input.
    pub fn query_version(&self, input: &str) -> (r: Result<String, RegexCaptureError>)
        ensures
            match version_capture_of(self.version_pattern@, input@) {
                Some(v) => r matches Ok(s) && s@ == v,
                None => r matches Err(RegexCaptureError),
            },
    {
        match regex_capture_version(self.version_pattern.as_str(), input) {
            Some(v) => Ok(v),
            None => Err(RegexCaptureError),
        }
    }
}

/// The currency status of one application: its extracted version and,
/// when an end-of-life lookup succeeded, the rendered lifecycle status.
#[derive(Debug, PartialEq, Eq)]
pub struct Status {
    pub name: String,
    pub version: String,
    /// Either a date by which support ends, or the text `alive` when no
    /// end-of-life date has been assigned yet.
    pub eol_status: Option<String>,
}

} // verus!
