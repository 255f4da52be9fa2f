//! The run of a version check, as steps decided from what the last outside
//! action returned: read the installed record, fetch the latest one, report.

use vstd::prelude::*;

use crate::error::VersionError;
use crate::remote::{channel_url, latest_release_url};
use crate::version::SpinCliVersion;

verus! {

/// Printed when the installed record cannot be read.
pub const INSTALLED_VERSION_FAILURE: &'static str = "Failed to get installed version of spin-cli";

/// Printed when the latest record cannot be fetched.
pub const LATEST_VERSION_FAILURE: &'static str = "Failed to get latest version of spin-cli";

/// What the run does next.
pub enum Step {
    /// Fetch the latest record from `url`.
    FetchLatest { installed: SpinCliVersion, url: String },
    /// Both records are known: find out how spin was installed, then report.
    DetectInstallSource { installed: SpinCliVersion, latest: SpinCliVersion },
    /// Print `lines` and end.
    Finish { lines: Vec<String> },
}

/// The step after reading the installed record: fetch the latest record of the
/// installed build's channel, or end with a failure message and no request.
pub fn after_installed(installed: Result<SpinCliVersion, VersionError>) -> (r: Step)
    ensures
        match installed {
            Ok(v) => r matches Step::FetchLatest { installed: i, url } && i@ == v@ && url@
                == channel_url(v@.is_canary()),
            Err(_) => r matches Step::Finish { lines } && lines.deep_view() == seq![
                INSTALLED_VERSION_FAILURE@,
            ],
        },
{
    match installed {
        Ok(v) => {
            let url = latest_release_url(v.is_canary());
            Step::FetchLatest { installed: v, url }
        },
        Err(_) => {
            let mut lines: Vec<String> = Vec::new();
            lines.push(String::from_str(INSTALLED_VERSION_FAILURE));
            assert(lines.deep_view() =~= seq![INSTALLED_VERSION_FAILURE@]);
            Step::Finish { lines }
        },
    }
}

/// The step after fetching the latest record: go on to the report, or end with
/// a failure message.
pub fn after_latest(installed: SpinCliVersion, latest: Result<SpinCliVersion, VersionError>) -> (r:
    Step)
    ensures
        match latest {
            Ok(l) => r matches Step::DetectInstallSource { installed: i, latest: n } && i@
                == installed@ && n@ == l@,
            Err(_) => r matches Step::Finish { lines } && lines.deep_view() == seq![
                LATEST_VERSION_FAILURE@,
            ],
        },
{
    match latest {
        Ok(l) => Step::DetectInstallSource { installed, latest: l },
        Err(_) => {
            let mut lines: Vec<String> = Vec::new();
            lines.push(String::from_str(LATEST_VERSION_FAILURE));
            assert(lines.deep_view() =~= seq![LATEST_VERSION_FAILURE@]);
            Step::Finish { lines }
        },
    }
}

} // verus!
