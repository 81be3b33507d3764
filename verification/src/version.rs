//! What the command line reports as its version: a version number, an
//! optional release channel, and optional commit details, rendered as one
//! line. Release stamping happens at packaging time, outside this library;
//! an unstamped build reports the fixed fallback.

use vstd::prelude::*;

verus! {

/// The version an unstamped build reports.
pub const FALLBACK_VERSION: &'static str = "1.0.0";

/// Commit details a stamped build carries.
#[derive(Debug)]
pub struct CommitInfo {
    pub short_commit_hash: String,
    pub commit_hash: String,
    pub commit_date: String,
}

/// A build's version: the number, an optional release channel, and
/// optional commit details.
#[derive(Debug)]
pub struct VersionInfo {
    pub version: String,
    pub release_channel: Option<String>,
    pub commit_info: Option<CommitInfo>,
}

impl VersionInfo {
    /// The one-line rendering: the version, followed by the short commit
    /// hash and date in parentheses when they are known.
    pub fn display_text(&self) -> (r: String)
        ensures
            match self.commit_info {
                Some(ci) => r@ == self.version@ + " ("@ + ci.short_commit_hash@ + " "@
                    + ci.commit_date@ + ")"@,
                None => r@ == self.version@,
            },
    {
        let mut out = self.version.clone();
        match &self.commit_info {
            Some(ci) => {
                out.append(" (");
                out.append(ci.short_commit_hash.as_str());
                out.append(" ");
                out.append(ci.commit_date.as_str());
                out.append(")");
            },
            None => {},
        }
        out
    }
}

/// The version of an unstamped build: the fallback number, no channel, no
/// commit details.
pub fn version() -> (r: VersionInfo)
    ensures
        r.version@ == FALLBACK_VERSION@,
        r.release_channel is None,
        r.commit_info is None,
{
    VersionInfo {
        version: String::from_str(FALLBACK_VERSION),
        release_channel: None,
        commit_info: None,
    }
}

/// The full version line of an unstamped build.
pub fn get_version_string() -> (r: String)
    ensures
        r@ == "paastel 1.0.0"@,
{
    let info = version();
    let mut out = String::from_str("paastel ");
    out.append(info.display_text().as_str());
    proof {
        reveal_strlit("paastel ");
        reveal_strlit("1.0.0");
        reveal_strlit("paastel 1.0.0");
        assert("paastel "@ + "1.0.0"@ =~= "paastel 1.0.0"@);
    }
    out
}

} // verus!
