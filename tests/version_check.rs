use spin_version::installed::{SPIN_BIN_PATH_ENV, SPIN_CLI_COMMIT_SHA_ENV, SPIN_CLI_VERSION_ENV};
use spin_version::text::str_contains;
use spin_version::{
    after_installed, after_latest, get_installed_spin_version, has_homebrew,
    is_installed_via_homebrew, latest_from_response, latest_release_url, report_lines,
    ResponseBody, SpinCliVersion, Step, VersionError,
};

fn record(version: &str, commit: &str) -> SpinCliVersion {
    SpinCliVersion::new(version.to_string(), commit.to_string())
}

#[test]
fn substring_search() {
    assert!(str_contains("2.1.0-pre", "pre"));
    assert!(str_contains("pre", "pre"));
    assert!(str_contains("abc", ""));
    assert!(str_contains("", ""));
    assert!(!str_contains("", "pre"));
    assert!(!str_contains("pr", "pre"));
    assert!(!str_contains("p-r-e", "pre"));
    assert!(str_contains("/opt/homebrew/bin/spin", "brew"));
}

#[test]
fn canary_detection() {
    assert!(record("2.1.0-pre", "abc").is_canary());
    assert!(record("3.0.0-pre0", "abc").is_canary());
    assert!(!record("2.0.0", "abc").is_canary());
    assert!(!record("2.0.0-rc1", "abc").is_canary());
}

#[test]
fn identical_records_are_not_outdated() {
    for (v, c) in [("2.0.0", "abc"), ("2.1.0-pre", "abc"), ("1.0.0", "main")] {
        let a = record(v, c);
        assert!(!a.is_outdated(&a.clone()));
    }
}

#[test]
fn canary_compares_commits() {
    let installed = record("2.1.0-pre", "abc");
    assert!(installed.is_outdated(&record("2.1.0-pre", "xyz")));
    assert!(installed.is_outdated(&record("2.2.0-pre", "xyz")));
    assert!(!installed.is_outdated(&record("2.2.0-pre", "abc")));
}

#[test]
fn stable_compares_versions_only() {
    let installed = record("2.0.0", "abc");
    assert!(installed.is_outdated(&record("2.1.0", "def")));
    assert!(installed.is_outdated(&record("2.1.0", "abc")));
    assert!(!installed.is_outdated(&record("2.0.0", "main")));
}

#[test]
fn record_text() {
    assert_eq!(record("2.0.0", "abc").to_string(), "2.0.0 (abc)");
}

#[test]
fn installed_version_from_environment() {
    let r = get_installed_spin_version(Some("2.0.0".to_string()), Some("abc".to_string()));
    let v = r.unwrap();
    assert_eq!(v.version, "2.0.0");
    assert_eq!(v.commit_sha, "abc");
    assert_eq!(
        get_installed_spin_version(None, Some("abc".to_string())).unwrap_err(),
        VersionError::MissingEnvironment
    );
    assert_eq!(
        get_installed_spin_version(Some("2.0.0".to_string()), None).unwrap_err(),
        VersionError::MissingEnvironment
    );
    assert_eq!(get_installed_spin_version(None, None).unwrap_err(), VersionError::MissingEnvironment);
}

#[test]
fn environment_variable_names() {
    assert_eq!(SPIN_CLI_VERSION_ENV, "SPIN_VERSION");
    assert_eq!(SPIN_CLI_COMMIT_SHA_ENV, "SPIN_COMMIT_SHA");
    assert_eq!(SPIN_BIN_PATH_ENV, "SPIN_BIN_PATH");
}

#[test]
fn homebrew_installation_from_path() {
    assert!(!is_installed_via_homebrew(None));
    assert!(!is_installed_via_homebrew(Some(String::new())));
    assert!(!is_installed_via_homebrew(Some("/usr/local/bin/spin".to_string())));
    assert!(is_installed_via_homebrew(Some("/opt/homebrew/bin/spin".to_string())));
    assert!(is_installed_via_homebrew(Some(
        "/home/linuxbrew/.linuxbrew/bin/spin".to_string()
    )));
}

#[test]
fn homebrew_availability() {
    assert!(has_homebrew(true, Some(true)));
    assert!(!has_homebrew(true, Some(false)));
    assert!(!has_homebrew(true, None));
    assert!(!has_homebrew(false, Some(true)));
    assert!(!has_homebrew(false, None));
}

#[test]
fn channel_urls() {
    assert_eq!(
        latest_release_url(true),
        "https://get-latest-spin-cli-version-wuvznxqk.fermyon.app/version/canary"
    );
    assert_eq!(
        latest_release_url(false),
        "https://get-latest-spin-cli-version-wuvznxqk.fermyon.app/version/stable"
    );
}

#[test]
fn response_outcomes() {
    let ok = latest_from_response(true, ResponseBody::Record(record("2.1.0", "def"))).unwrap();
    assert_eq!(ok.version, "2.1.0");
    assert_eq!(ok.commit_sha, "def");
    assert_eq!(
        latest_from_response(false, ResponseBody::Record(record("2.1.0", "def"))).unwrap_err(),
        VersionError::Network
    );
    assert_eq!(
        latest_from_response(false, ResponseBody::NotARecord).unwrap_err(),
        VersionError::Network
    );
    assert_eq!(
        latest_from_response(true, ResponseBody::Unreadable).unwrap_err(),
        VersionError::Network
    );
    assert_eq!(
        latest_from_response(true, ResponseBody::NotARecord).unwrap_err(),
        VersionError::Parse
    );
}

#[test]
fn response_with_empty_field_is_parse_error() {
    assert_eq!(
        latest_from_response(true, ResponseBody::Record(record("", "def"))).unwrap_err(),
        VersionError::Parse
    );
    assert_eq!(
        latest_from_response(true, ResponseBody::Record(record("2.1.0", ""))).unwrap_err(),
        VersionError::Parse
    );
}

#[test]
fn record_completeness() {
    assert!(record("2.0.0", "abc").is_complete());
    assert!(!record("", "abc").is_complete());
    assert!(!record("2.0.0", "").is_complete());
}

#[test]
fn empty_environment_values_are_missing() {
    assert_eq!(
        get_installed_spin_version(Some(String::new()), Some("abc".to_string())).unwrap_err(),
        VersionError::MissingEnvironment
    );
    assert_eq!(
        get_installed_spin_version(Some("2.0.0".to_string()), Some(String::new())).unwrap_err(),
        VersionError::MissingEnvironment
    );
    assert_eq!(
        get_installed_spin_version(Some(String::new()), Some(String::new())).unwrap_err(),
        VersionError::MissingEnvironment
    );
}

#[test]
fn scenario_up_to_date() {
    let lines = report_lines(&record("2.0.0", "abc"), &record("2.0.0", "abc"), false, false);
    assert_eq!(lines, vec!["Your spin CLI is up to date! 2.0.0 (abc) \u{2705}".to_string()]);
}

#[test]
fn scenario_outdated_with_instructions_link() {
    let lines = report_lines(&record("2.0.0", "abc"), &record("2.1.0", "def"), false, false);
    assert_eq!(
        lines,
        vec![
            "Installed spin CLI version:   2.0.0 (abc)".to_string(),
            "Latest spin CLI version:      2.1.0 (def)".to_string(),
            String::new(),
            "See instructions for updating your spin CLI installation at https://developer.fermyon.com/spin/install".to_string(),
        ]
    );
}

#[test]
fn scenario_canary_outdated_on_commit() {
    let lines = report_lines(&record("2.1.0-pre", "abc"), &record("2.1.0-pre", "xyz"), false, false);
    assert_eq!(lines.len(), 4);
    assert_eq!(lines[0], "Installed spin CLI version:   2.1.0-pre (abc)");
    assert_eq!(lines[1], "Latest spin CLI version:      2.1.0-pre (xyz)");
}

#[test]
fn scenario_outdated_via_homebrew() {
    let lines = report_lines(&record("2.0.0", "abc"), &record("2.1.0", "def"), true, true);
    assert_eq!(
        lines,
        vec![
            "Installed spin CLI version:   2.0.0 (abc)".to_string(),
            "Latest spin CLI version:      2.1.0 (def)".to_string(),
            String::new(),
            "To update your spin CLI, run: brew upgrade fermyon/tap/spin".to_string(),
        ]
    );
}

#[test]
fn homebrew_suggestion_when_available() {
    let lines = report_lines(&record("2.0.0", "abc"), &record("2.0.0", "abc"), false, true);
    assert_eq!(
        lines,
        vec![
            "Your spin CLI is up to date! 2.0.0 (abc) \u{2705}".to_string(),
            String::new(),
            "You can also install and manage your spin CLI with Homebrew:".to_string(),
            "    brew tap fermyon/tap".to_string(),
            "    brew install fermyon/tap/spin".to_string(),
        ]
    );
}

#[test]
fn missing_environment_ends_without_fetch() {
    let installed = get_installed_spin_version(None, Some("abc".to_string()));
    match after_installed(installed) {
        Step::Finish { lines } => {
            assert_eq!(lines, vec!["Failed to get installed version of spin-cli".to_string()])
        }
        _ => panic!("a missing variable must end the run"),
    }
}

#[test]
fn installed_record_selects_channel() {
    match after_installed(Ok(record("2.1.0-pre", "abc"))) {
        Step::FetchLatest { installed, url } => {
            assert_eq!(installed.version, "2.1.0-pre");
            assert_eq!(url, "https://get-latest-spin-cli-version-wuvznxqk.fermyon.app/version/canary");
        }
        _ => panic!("a readable record must lead to a fetch"),
    }
    match after_installed(Ok(record("2.0.0", "abc"))) {
        Step::FetchLatest { url, .. } => {
            assert_eq!(url, "https://get-latest-spin-cli-version-wuvznxqk.fermyon.app/version/stable");
        }
        _ => panic!("a readable record must lead to a fetch"),
    }
}

#[test]
fn failed_fetch_ends_the_run() {
    for e in [VersionError::Network, VersionError::Parse] {
        match after_latest(record("2.0.0", "abc"), Err(e)) {
            Step::Finish { lines } => {
                assert_eq!(lines, vec!["Failed to get latest version of spin-cli".to_string()])
            }
            _ => panic!("a failed fetch must end the run"),
        }
    }
    match after_latest(record("2.0.0", "abc"), Ok(record("2.1.0", "def"))) {
        Step::DetectInstallSource { installed, latest } => {
            assert_eq!(installed.version, "2.0.0");
            assert_eq!(latest.version, "2.1.0");
        }
        _ => panic!("a fetched record must lead to the report"),
    }
}
