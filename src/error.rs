//! Why a version record could not be had.

use vstd::prelude::*;

verus! {

#[derive(Debug, Clone, Copy, PartialEq, Eq, Structural)]
pub enum VersionError {
    /// A required environment variable is absent or not valid text.
    MissingEnvironment,
    /// The request could not be sent, or its response reports a failure.
    Network,
    /// The response body is not a version record.
    Parse,
}

} // verus!
