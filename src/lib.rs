//! Version checking for the spin CLI: comparing the installed build against the
//! latest published one, deciding how the tool was installed, and producing the
//! status report shown to the user.

pub mod error;
pub mod installed;
pub mod remote;
pub mod report;
pub mod session;
pub mod text;
pub mod version;

pub use error::VersionError;
pub use installed::{get_installed_spin_version, has_homebrew, is_installed_via_homebrew};
pub use remote::{latest_from_response, latest_release_url, ResponseBody};
pub use report::report_lines;
pub use session::{after_installed, after_latest, Step};
pub use version::SpinCliVersion;
