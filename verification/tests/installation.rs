use github_actions_ls::install::{InstallStatus, Installation, Installer, PackageReply};

const PACKAGE: &str = "@actions/languageserver";

fn some(v: &str) -> Option<String> {
    Some(v.to_string())
}

/// What one installation came to: its result, whether the host was asked
/// for the latest version and to install, and the statuses it showed.
#[derive(Debug, PartialEq)]
struct Outcome {
    result: Result<(), String>,
    latest_asked: bool,
    install_asked: bool,
    shown: Vec<InstallStatus>,
}

fn outcome(
    result: Result<(), String>,
    latest_asked: bool,
    install_asked: bool,
    shown: &[InstallStatus],
) -> Outcome {
    Outcome { result, latest_asked, install_asked, shown: shown.to_vec() }
}

/// Runs a whole installation against fixed answers of the host.
fn run(
    installer: &mut Installer,
    installed: Result<Option<String>, String>,
    latest: Result<String, String>,
    install: Result<(), String>,
) -> Outcome {
    let mut installed = Some(installed);
    let mut latest = Some(latest);
    let mut install = Some(install);
    let mut latest_asked = false;
    let mut install_asked = false;
    let mut shown = Vec::new();
    let mut step = installer.start();
    for _ in 0..4 {
        let reply = match &step {
            Installation::Done(result) => {
                return Outcome { result: result.clone(), latest_asked, install_asked, shown };
            }
            Installation::QueryInstalled => PackageReply::InstalledVersion(installed.take().unwrap()),
            Installation::QueryLatest { .. } => {
                latest_asked = true;
                PackageReply::LatestVersion(latest.take().unwrap())
            }
            Installation::Install { .. } => {
                install_asked = true;
                PackageReply::Installed(install.take().unwrap())
            }
        };
        let (next, status) = installer.advance(PACKAGE, step, reply);
        shown.extend(status);
        step = next;
    }
    panic!("the installation did not end");
}

const CHECKING: InstallStatus = InstallStatus::CheckingForUpdate;
const DOWNLOADING: InstallStatus = InstallStatus::Downloading;
const DONE: InstallStatus = InstallStatus::Done;

#[test]
fn new_installer_has_seen_nothing() {
    let installer = Installer::new();
    assert!(!installer.is_recorded(PACKAGE));
    assert!(!installer.is_recorded(""));
    assert_eq!(installer.start(), Installation::QueryInstalled);
}

#[test]
fn up_to_date_package_is_not_installed_again() {
    let mut installer = Installer::new();
    let got = run(&mut installer, Ok(some("1.2.3")), Ok("1.2.3".to_string()), Err("unused".to_string()));
    assert_eq!(got, outcome(Ok(()), true, false, &[CHECKING, DONE]));
    assert!(installer.is_recorded(PACKAGE));
}

#[test]
fn missing_package_is_installed() {
    let mut installer = Installer::new();
    let step = installer.on_installed_version(PACKAGE, Ok(None));
    assert_eq!(step, Installation::QueryLatest { installed: None });
    let step = installer.on_latest_version(PACKAGE, None, Ok("2.0.0".to_string()));
    assert_eq!(step, Installation::Install { installed: None, version: "2.0.0".to_string() });
    assert!(!installer.is_recorded(PACKAGE));
    let step = installer.on_install_result(PACKAGE, None, Ok(()));
    assert_eq!(step, Installation::Done(Ok(())));
    assert!(installer.is_recorded(PACKAGE));
}

#[test]
fn statuses_of_a_first_installation_come_in_order() {
    let mut installer = Installer::new();
    let got = run(&mut installer, Ok(None), Ok("2.0.0".to_string()), Ok(()));
    assert_eq!(got, outcome(Ok(()), true, true, &[CHECKING, DOWNLOADING, DONE]));
    assert!(installer.is_recorded(PACKAGE));
}

#[test]
fn outdated_package_is_upgraded() {
    let mut installer = Installer::new();
    let got = run(&mut installer, Ok(some("1.0.0")), Ok("1.0.1".to_string()), Ok(()));
    assert_eq!(got, outcome(Ok(()), true, true, &[CHECKING, DOWNLOADING, DONE]));
    assert!(installer.is_recorded(PACKAGE));
}

#[test]
fn versions_are_compared_as_texts() {
    let mut installer = Installer::new();
    let step = installer.on_latest_version(PACKAGE, some("1.0"), Ok("1.0.0".to_string()));
    assert_eq!(step, Installation::Install { installed: some("1.0"), version: "1.0.0".to_string() });
    let step = installer.on_latest_version(PACKAGE, some(""), Ok("".to_string()));
    assert_eq!(step, Installation::Done(Ok(())));
}

#[test]
fn failed_first_installation_is_reported() {
    let mut installer = Installer::new();
    let got = run(&mut installer, Ok(None), Ok("2.0.0".to_string()), Err("npm exited with 1".to_string()));
    assert_eq!(
        got,
        outcome(Err("npm exited with 1".to_string()), true, true, &[CHECKING, DOWNLOADING])
    );
    assert!(!installer.is_recorded(PACKAGE));
}

#[test]
fn failed_upgrade_keeps_the_old_version() {
    let mut installer = Installer::new();
    let got = run(&mut installer, Ok(some("1.0.0")), Ok("2.0.0".to_string()), Err("offline".to_string()));
    assert_eq!(got, outcome(Ok(()), true, true, &[CHECKING, DOWNLOADING, DONE]));
    assert!(installer.is_recorded(PACKAGE));
}

#[test]
fn recorded_package_needs_nothing_more() {
    let mut installer = Installer::new();
    run(&mut installer, Ok(some("1.0.0")), Ok("1.0.0".to_string()), Ok(()));
    assert!(installer.is_recorded(PACKAGE));
    let got = run(&mut installer, Ok(some("1.0.0")), Ok("2.0.0".to_string()), Ok(()));
    assert_eq!(got, outcome(Ok(()), false, false, &[]));
    let step = installer.on_installed_version("other", Ok(some("1.0.0")));
    assert_eq!(step, Installation::QueryLatest { installed: some("1.0.0") });
}

#[test]
fn recorded_package_needs_nothing_whatever_version_is_found() {
    let mut installer = Installer::new();
    run(&mut installer, Ok(None), Ok("1.0.0".to_string()), Ok(()));
    assert!(installer.is_recorded(PACKAGE));
    let step = installer.on_installed_version(PACKAGE, Ok(None));
    assert_eq!(step, Installation::Done(Ok(())));
    let got = run(&mut installer, Ok(None), Ok("2.0.0".to_string()), Err("offline".to_string()));
    assert_eq!(got, outcome(Ok(()), false, false, &[]));
    assert!(installer.is_recorded(PACKAGE));
}

#[test]
fn recorded_package_still_hands_on_the_error_of_the_first_question() {
    let mut installer = Installer::new();
    run(&mut installer, Ok(None), Ok("1.0.0".to_string()), Ok(()));
    let got = run(&mut installer, Err("no npm".to_string()), Ok("1.0.0".to_string()), Ok(()));
    assert_eq!(got, outcome(Err("no npm".to_string()), false, false, &[]));
    assert!(installer.is_recorded(PACKAGE));
}

#[test]
fn errors_of_the_registry_are_handed_on() {
    let mut installer = Installer::new();
    let got = run(&mut installer, Err("no npm".to_string()), Ok("1".to_string()), Ok(()));
    assert_eq!(got, outcome(Err("no npm".to_string()), false, false, &[]));
    let got = run(&mut installer, Ok(some("1")), Err("no network".to_string()), Ok(()));
    assert_eq!(got, outcome(Err("no network".to_string()), true, false, &[CHECKING]));
    let got = run(&mut installer, Ok(None), Err("no network".to_string()), Ok(()));
    assert_eq!(got, outcome(Err("no network".to_string()), true, false, &[CHECKING]));
    assert!(!installer.is_recorded(PACKAGE));
}

#[test]
fn package_reply_that_answers_nothing_changes_nothing() {
    let mut installer = Installer::new();
    let next = installer.advance(PACKAGE, Installation::QueryInstalled, PackageReply::Installed(Ok(())));
    assert_eq!(next, (Installation::QueryInstalled, None));
    let next = installer.advance(
        PACKAGE,
        Installation::QueryLatest { installed: None },
        PackageReply::InstalledVersion(Ok(some("1"))),
    );
    assert_eq!(next, (Installation::QueryLatest { installed: None }, None));
    let next = installer.advance(
        PACKAGE,
        Installation::Install { installed: None, version: "1".to_string() },
        PackageReply::LatestVersion(Ok("1".to_string())),
    );
    assert_eq!(next, (Installation::Install { installed: None, version: "1".to_string() }, None));
    let next = installer.advance(PACKAGE, Installation::Done(Ok(())), PackageReply::Installed(Ok(())));
    assert_eq!(next, (Installation::Done(Ok(())), None));
    let next = installer.advance(
        PACKAGE,
        Installation::Done(Err("e".to_string())),
        PackageReply::Installed(Ok(())),
    );
    assert_eq!(next, (Installation::Done(Err("e".to_string())), None));
    assert!(!installer.is_recorded(PACKAGE));
}

#[test]
fn packages_are_recorded_by_name() {
    let mut installer = Installer::new();
    installer.on_install_result("a", None, Ok(()));
    installer.on_install_result("b", some("1"), Err("x".to_string()));
    installer.on_install_result("c", None, Err("x".to_string()));
    assert!(installer.is_recorded("a"));
    assert!(installer.is_recorded("b"));
    assert!(!installer.is_recorded("c"));
    assert!(!installer.is_recorded("A"));
}

#[test]
fn status_follows_the_step_taken() {
    let ask_installed = Installation::QueryInstalled;
    let ask_latest = Installation::QueryLatest { installed: some("1") };
    let install = Installation::Install { installed: None, version: "2".to_string() };
    let well = Installation::Done(Ok(()));
    let badly = Installation::Done(Err("e".to_string()));

    assert_eq!(ask_latest.status_after(&ask_installed), Some(CHECKING));
    assert_eq!(install.status_after(&ask_latest), Some(DOWNLOADING));
    assert_eq!(well.status_after(&ask_latest), Some(DONE));
    assert_eq!(well.status_after(&install), Some(DONE));

    assert_eq!(well.status_after(&ask_installed), None);
    assert_eq!(badly.status_after(&ask_installed), None);
    assert_eq!(badly.status_after(&ask_latest), None);
    assert_eq!(badly.status_after(&install), None);
    assert_eq!(well.status_after(&well), None);
    assert_eq!(ask_installed.status_after(&ask_installed), None);
    assert_eq!(ask_latest.status_after(&ask_latest), None);
    assert_eq!(install.status_after(&install), None);
    assert_eq!(install.status_after(&ask_installed), None);
}
