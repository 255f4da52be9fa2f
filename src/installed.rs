//! What the host tool tells about the installed spin CLI: its version record,
//! and whether it was installed through Homebrew.

use vstd::prelude::*;

use crate::error::VersionError;
use crate::text::{contains_seq, str_contains};
use crate::version::SpinCliVersion;

verus! {

/// Environment variable holding the installed version string.
pub const SPIN_CLI_VERSION_ENV: &'static str = "SPIN_VERSION";

/// Environment variable holding the installed commit identifier.
pub const SPIN_CLI_COMMIT_SHA_ENV: &'static str = "SPIN_COMMIT_SHA";

/// Environment variable holding the path of the spin executable.
pub const SPIN_BIN_PATH_ENV: &'static str = "SPIN_BIN_PATH";

/// Text that a path inside Homebrew's install tree holds.
pub const HOMEBREW_PATH_MARKER: &'static str = "brew";

/// The installed record, from the values of the two environment variables
/// (`None` where a variable is absent or not valid text). A missing or empty
/// value is an error.
pub open spec fn installed_record(
    version: Option<Seq<char>>,
    commit_sha: Option<Seq<char>>,
) -> Result<(Seq<char>, Seq<char>), VersionError> {
    match (version, commit_sha) {
        (Some(v), Some(c)) => if v.len() > 0 && c.len() > 0 {
            Ok((v, c))
        } else {
            Err(VersionError::MissingEnvironment)
        },
        _ => Err(VersionError::MissingEnvironment),
    }
}

/// The executable path, if any, lies in Homebrew's install tree.
pub open spec fn in_homebrew_tree(spin_bin_path: Option<Seq<char>>) -> bool {
    match spin_bin_path {
        Some(p) => contains_seq(p, HOMEBREW_PATH_MARKER@),
        None => false,
    }
}

/// Assembles the installed version record from the values of the version and
/// commit variables; either one missing or empty is an error.
pub fn get_installed_spin_version(version: Option<String>, commit_sha: Option<String>) -> (r:
    Result<SpinCliVersion, VersionError>)
    ensures
        match installed_record(version.deep_view(), commit_sha.deep_view()) {
            Ok((v, c)) => r matches Ok(rec) && rec.version@ == v && rec.commit_sha@ == c,
            Err(e) => r == Err::<SpinCliVersion, VersionError>(e),
        },
{
    match (version, commit_sha) {
        (Some(version), Some(commit_sha)) => {
            let record = SpinCliVersion::new(version, commit_sha);
            if record.is_complete() {
                Ok(record)
            } else {
                Err(VersionError::MissingEnvironment)
            }
        },
        _ => Err(VersionError::MissingEnvironment),
    }
}

/// Whether the spin executable at `spin_bin_path` was installed through
/// Homebrew; an unset path counts as not.
pub fn is_installed_via_homebrew(spin_bin_path: Option<String>) -> (r: bool)
    ensures
        r == in_homebrew_tree(spin_bin_path.deep_view()),
{
    match spin_bin_path {
        Some(p) => str_contains(p.as_str(), HOMEBREW_PATH_MARKER),
        None => false,
    }
}

/// Whether Homebrew is available: only on a supported operating system, and only
/// when looking up the `brew` executable succeeded. `lookup_succeeded` is `None`
/// where the lookup command could not be run at all, which counts as absent.
pub fn has_homebrew(os_supported: bool, lookup_succeeded: Option<bool>) -> (r: bool)
    ensures
        r == (os_supported && lookup_succeeded == Some(true)),
{
    if !os_supported {
        return false;
    }
    match lookup_succeeded {
        Some(ok) => ok,
        None => false,
    }
}

/// A path that is unset, empty, or free of the Homebrew marker never counts as
/// a Homebrew installation.
pub proof fn lemma_not_via_homebrew(spin_bin_path: Option<Seq<char>>)
    requires
        spin_bin_path matches Some(p) ==> (p.len() == 0 || !contains_seq(
            p,
            HOMEBREW_PATH_MARKER@,
        )),
    ensures
        !in_homebrew_tree(spin_bin_path),
{
    reveal_strlit("brew");
}

} // verus!
