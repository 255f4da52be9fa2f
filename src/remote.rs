//! Where the latest published version is asked for, and what a response yields.

use vstd::prelude::*;

use crate::error::VersionError;
use crate::version::SpinCliVersion;

verus! {

/// Root of the endpoint that serves the latest spin CLI version.
pub const LATEST_VERSION_ROOT_URL: &'static str =
    "https://get-latest-spin-cli-version-wuvznxqk.fermyon.app/version";

/// The endpoint of the canary channel, or of the stable one.
pub open spec fn channel_url(canary: bool) -> Seq<char> {
    LATEST_VERSION_ROOT_URL@ + if canary {
        "/canary"@
    } else {
        "/stable"@
    }
}

/// The URL to ask for the latest release of the given channel.
pub fn latest_release_url(canary: bool) -> (r: String)
    ensures
        r@ == channel_url(canary),
{
    let root = String::from_str(LATEST_VERSION_ROOT_URL);
    if canary {
        root.concat("/canary")
    } else {
        root.concat("/stable")
    }
}

/// What the body of a successful response turned out to be.
pub enum ResponseBody {
    /// The body could not be read in full.
    Unreadable,
    /// The body was read but is not a version record.
    NotARecord,
    /// The body decoded to this record.
    Record(SpinCliVersion),
}

/// The latest release, from a response whose status was `status_success` and
/// whose body is `body`. A failed status or an unreadable body is a network
/// error; a body that is no record, or a record with an empty field, is a parse
/// error.
pub fn latest_from_response(status_success: bool, body: ResponseBody) -> (r: Result<
    SpinCliVersion,
    VersionError,
>)
    ensures
        !status_success ==> r == Err::<SpinCliVersion, VersionError>(VersionError::Network),
        status_success ==> match body {
            ResponseBody::Unreadable => r == Err::<SpinCliVersion, VersionError>(
                VersionError::Network,
            ),
            ResponseBody::NotARecord => r == Err::<SpinCliVersion, VersionError>(
                VersionError::Parse,
            ),
            ResponseBody::Record(v) => if v@.is_complete() {
                r matches Ok(w) && w@ == v@
            } else {
                r == Err::<SpinCliVersion, VersionError>(VersionError::Parse)
            },
        },
{
    if !status_success {
        return Err(VersionError::Network);
    }
    match body {
        ResponseBody::Unreadable => Err(VersionError::Network),
        ResponseBody::NotARecord => Err(VersionError::Parse),
        ResponseBody::Record(v) => {
            if v.is_complete() {
                Ok(v)
            } else {
                Err(VersionError::Parse)
            }
        },
    }
}

} // verus!
