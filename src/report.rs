//! The status report: the lines printed once both version records are known.

use vstd::prelude::*;

use crate::version::{SpinCliVersion, VersionModel};

verus! {

/// Page with instructions for updating an installation.
pub const SPIN_INSTALL_INSTRUCTIONS: &'static str = "https://developer.fermyon.com/spin/install";

/// Name of the Homebrew tap that carries spin.
pub const BREW_TAP_NAME: &'static str = "fermyon/tap";

/// Name of the Homebrew formula of spin.
pub const BREW_FORMULA_NAME: &'static str = "spin";

/// The line telling that the installed build is the latest.
pub open spec fn up_to_date_line(installed: VersionModel) -> Seq<char> {
    "Your spin CLI is up to date! "@ + installed.text() + " \u{2705}"@
}

/// The line telling how to upgrade an outdated installation.
pub open spec fn upgrade_line(installed_via_brew: bool) -> Seq<char> {
    if installed_via_brew {
        "To update your spin CLI, run: brew upgrade "@ + BREW_TAP_NAME@ + "/"@ + BREW_FORMULA_NAME@
    } else {
        "See instructions for updating your spin CLI installation at "@
            + SPIN_INSTALL_INSTRUCTIONS@
    }
}

/// The lines comparing the installed build with the latest one.
pub open spec fn status_lines(
    installed: VersionModel,
    latest: VersionModel,
    installed_via_brew: bool,
) -> Seq<Seq<char>> {
    if !installed.is_outdated(latest) {
        seq![up_to_date_line(installed)]
    } else {
        seq![
            "Installed spin CLI version:   "@ + installed.text(),
            "Latest spin CLI version:      "@ + latest.text(),
            Seq::empty(),
            upgrade_line(installed_via_brew),
        ]
    }
}

/// The lines suggesting an installation through Homebrew.
pub open spec fn homebrew_lines() -> Seq<Seq<char>> {
    seq![
        Seq::empty(),
        "You can also install and manage your spin CLI with Homebrew:"@,
        "    brew tap "@ + BREW_TAP_NAME@,
        "    brew install "@ + BREW_TAP_NAME@ + "/"@ + BREW_FORMULA_NAME@,
    ]
}

/// The whole report: the status, then the Homebrew suggestion where Homebrew is
/// available but did not install this spin.
pub open spec fn report(
    installed: VersionModel,
    latest: VersionModel,
    installed_via_brew: bool,
    brew_available: bool,
) -> Seq<Seq<char>> {
    status_lines(installed, latest, installed_via_brew) + if brew_available
        && !installed_via_brew {
        homebrew_lines()
    } else {
        Seq::empty()
    }
}

fn upgrade_instructions(installed_via_brew: bool) -> (r: String)
    ensures
        r@ == upgrade_line(installed_via_brew),
{
    if installed_via_brew {
        String::from_str("To update your spin CLI, run: brew upgrade ").concat(BREW_TAP_NAME).concat(
            "/",
        ).concat(BREW_FORMULA_NAME)
    } else {
        String::from_str("See instructions for updating your spin CLI installation at ").concat(
            SPIN_INSTALL_INSTRUCTIONS,
        )
    }
}

/// The lines to print for the installed and latest records, given whether
/// Homebrew installed this spin and whether Homebrew is available.
pub fn report_lines(
    installed: &SpinCliVersion,
    latest: &SpinCliVersion,
    installed_via_brew: bool,
    brew_available: bool,
) -> (r: Vec<String>)
    ensures
        r.deep_view() == report(installed@, latest@, installed_via_brew, brew_available),
{
    let mut lines: Vec<String> = Vec::new();
    if !installed.is_outdated(latest) {
        lines.push(
            String::from_str("Your spin CLI is up to date! ").concat(
                installed.to_string().as_str(),
            ).concat(" \u{2705}"),
        );
    } else {
        lines.push(
            String::from_str("Installed spin CLI version:   ").concat(
                installed.to_string().as_str(),
            ),
        );
        lines.push(
            String::from_str("Latest spin CLI version:      ").concat(latest.to_string().as_str()),
        );
        lines.push(String::new());
        lines.push(upgrade_instructions(installed_via_brew));
    }
    let ghost status = lines.deep_view();
    assert(status =~= status_lines(installed@, latest@, installed_via_brew));
    if brew_available && !installed_via_brew {
        lines.push(String::new());
        lines.push(
            String::from_str("You can also install and manage your spin CLI with Homebrew:"),
        );
        lines.push(String::from_str("    brew tap ").concat(BREW_TAP_NAME));
        lines.push(
            String::from_str("    brew install ").concat(BREW_TAP_NAME).concat("/").concat(
                BREW_FORMULA_NAME,
            ),
        );
    }
    assert(lines.deep_view() =~= report(installed@, latest@, installed_via_brew, brew_available));
    lines
}

} // verus!
