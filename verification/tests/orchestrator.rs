use runner_installer::config::InstallerConfig;
use runner_installer::error::InstallError;
use runner_installer::host::{Action, LogLevel, Outcome};
use runner_installer::os::{OsFamily, OsInfo};
use runner_installer::package_managers::{AptPackageManager, Backend, PackageManager};
use runner_installer::progress::Progress;
use runner_installer::{FeatureInstaller, FeatureOutcome, LifecycleState, RunReport, Step};

fn ubuntu() -> OsInfo {
    OsInfo {
        name: "ubuntu".to_string(),
        version: "22.04".to_string(),
        arch: "x86_64".to_string(),
        family: OsFamily::Linux,
    }
}

fn installer(fail_fast: bool) -> FeatureInstaller {
    let config = InstallerConfig { fail_fast, timeout: 300, update_packages: true };
    FeatureInstaller::new(config, ubuntu(), "/home/r").unwrap()
}

fn names(list: &[&str]) -> Vec<String> {
    list.iter().map(|s| s.to_string()).collect()
}

fn ok() -> Outcome {
    Outcome::Exited { code: Some(0), stdout: "v1\n".to_string(), stderr: String::new() }
}

fn fail() -> Outcome {
    Outcome::Exited { code: Some(1), stdout: String::new(), stderr: "boom".to_string() }
}

/// A host that keeps track of which tools are installed. Installing a package whose
/// name starts with one of `broken` fails; every other command works.
struct Host {
    tools: Vec<&'static str>,
    broken: Vec<&'static str>,
    lines: Vec<String>,
}

impl Host {
    fn new(tools: &[&'static str], broken: &[&'static str]) -> Host {
        Host { tools: tools.to_vec(), broken: broken.to_vec(), lines: Vec::new() }
    }

    fn perform(&mut self, action: &Action) -> Outcome {
        let cmd = match action {
            Action::Run(cmd) => cmd,
            Action::Log { message, .. } => {
                self.lines.push(format!("log: {}", message));
                return Outcome::Done;
            }
            _ => return Outcome::Failed { reason: String::new() },
        };
        let line = cmd.line();
        self.lines.push(line.clone());
        if cmd.args.last().map(|a| a.as_str()) == Some("--version") {
            let tool = match cmd.program.as_str() {
                "python3" | "pip3" => "python",
                "npm" => "node",
                other => other,
            };
            return if self.tools.contains(&tool) { ok() } else { fail() };
        }
        if line.starts_with("sudo apt-get install -y ") {
            let package = cmd.args.last().unwrap().as_str();
            if self.broken.iter().any(|b| package.starts_with(b)) {
                return fail();
            }
            match package {
                "nodejs" => self.tools.push("node"),
                "python3-pip" => self.tools.push("python"),
                "docker-ce-cli" => self.tools.push("docker"),
                _ => {}
            }
        }
        if line == "whoami" {
            return Outcome::Exited { code: Some(0), stdout: "r\n".to_string(), stderr: String::new() };
        }
        ok()
    }

    fn run(&mut self, installer: &FeatureInstaller, requested: &[&str]) -> RunReport {
        let requested = names(requested);
        let mut log: Vec<Outcome> = Vec::new();
        loop {
            match installer.install_features(&requested, &log) {
                Step::Perform(action) => {
                    log.push(self.perform(&action));
                    assert!(log.len() < 500);
                }
                Step::Done(report) => return report,
            }
        }
    }

    fn attempted(&self, tool: &str) -> bool {
        let probe = format!("{} --version", tool);
        self.lines.iter().any(|l| *l == probe)
    }
}

fn python_failure() -> InstallError {
    InstallError::CommandFailed {
        command: "sudo apt-get install -y python3".to_string(),
        exit_status: Some(1),
        stderr: "boom".to_string(),
    }
}

#[test]
fn installer_selects_the_backend_of_the_platform() {
    let it = installer(true);
    assert_eq!(it.package_manager(), Backend::Apt(AptPackageManager));
    assert_eq!(it.package_manager().name(), "apt");
    assert_eq!(it.os_info(), &ubuntu());
    assert_eq!(it.config(), InstallerConfig::default());
}

#[test]
fn installer_rejects_an_unknown_family() {
    let os = OsInfo { family: OsFamily::Unknown, ..ubuntu() };
    assert_eq!(
        FeatureInstaller::new(InstallerConfig::default(), os, "/home/r"),
        Err(InstallError::UnsupportedPlatform)
    );
}

#[test]
fn empty_request_succeeds_without_asking_anything() {
    let log: Vec<Outcome> = Vec::new();
    assert_eq!(
        installer(true).install_features(&Vec::new(), &log),
        Step::Done(RunReport { outcomes: Vec::new(), result: Ok(()) })
    );
}

#[test]
fn features_are_installed_in_the_order_requested() {
    let mut host = Host::new(&[], &[]);
    let report = host.run(&installer(true), &["python", "nodejs"]);
    assert_eq!(report.result, Ok(()));
    assert_eq!(report.outcomes, vec![FeatureOutcome::Success, FeatureOutcome::Success]);
    let first_node = host.lines.iter().position(|l| l == "node --version").unwrap();
    let last_python = host.lines.iter().rposition(|l| l.starts_with("python3")).unwrap();
    assert!(last_python < first_node);
}

#[test]
fn installed_features_are_skipped() {
    let mut host = Host::new(&["node", "docker"], &[]);
    let report = host.run(&installer(true), &["nodejs", "docker"]);
    assert_eq!(report.result, Ok(()));
    assert_eq!(report.outcomes, vec![FeatureOutcome::Skipped, FeatureOutcome::Skipped]);
    assert_eq!(host.lines, vec!["node --version", "docker --version"]);
}

#[test]
fn duplicates_are_run_again_and_find_the_feature_present() {
    let mut host = Host::new(&[], &[]);
    let report = host.run(&installer(true), &["nodejs", "nodejs"]);
    assert_eq!(report.result, Ok(()));
    assert_eq!(report.outcomes, vec![FeatureOutcome::Success, FeatureOutcome::Skipped]);
    assert_eq!(host.lines.last().unwrap(), "node --version");
}

#[test]
fn fail_fast_stops_at_the_first_failure() {
    let mut host = Host::new(&[], &["python3"]);
    let report = host.run(&installer(true), &["nodejs", "python", "docker"]);
    assert_eq!(report.result, Err(python_failure()));
    assert_eq!(
        report.outcomes,
        vec![FeatureOutcome::Success, FeatureOutcome::Failed(python_failure())]
    );
    assert!(host.attempted("node"));
    assert!(host.attempted("python3"));
    assert!(!host.attempted("docker"));
    assert_eq!(host.lines.last().unwrap(), "sudo apt-get install -y python3");
}

#[test]
fn without_fail_fast_later_features_are_still_attempted() {
    let mut host = Host::new(&[], &["python3"]);
    let report = host.run(&installer(false), &["nodejs", "python", "docker"]);
    assert_eq!(report.result, Ok(()));
    assert_eq!(
        report.outcomes,
        vec![
            FeatureOutcome::Success,
            FeatureOutcome::Failed(python_failure()),
            FeatureOutcome::Success,
        ]
    );
    assert!(host.attempted("docker"));
}

#[test]
fn without_fail_fast_every_failure_is_recorded() {
    let mut host = Host::new(&[], &["python3", "ca-certificates"]);
    let report = host.run(&installer(false), &["nodejs", "python", "docker"]);
    assert_eq!(report.result, Ok(()));
    assert_eq!(report.outcomes.len(), 3);
    assert_eq!(report.outcomes[0], FeatureOutcome::Success);
    assert_eq!(report.outcomes[1], FeatureOutcome::Failed(python_failure()));
    assert_eq!(
        report.outcomes[2],
        FeatureOutcome::Failed(InstallError::CommandFailed {
            command: "sudo apt-get install -y ca-certificates".to_string(),
            exit_status: Some(1),
            stderr: "boom".to_string(),
        })
    );
}

#[test]
fn unknown_feature_aborts_before_anything_is_asked() {
    for fail_fast in [true, false] {
        for requested in [vec!["unknown-feature"], vec!["unknown-feature", "nodejs"]] {
            let log: Vec<Outcome> = Vec::new();
            assert_eq!(
                installer(fail_fast).install_features(&names(&requested), &log),
                Step::Done(RunReport {
                    outcomes: Vec::new(),
                    result: Err(InstallError::UnknownFeature {
                        name: "unknown-feature".to_string()
                    }),
                })
            );
        }
    }
}

#[test]
fn unknown_feature_aborts_whatever_the_policy() {
    for fail_fast in [true, false] {
        let mut host = Host::new(&[], &[]);
        let report = host.run(&installer(fail_fast), &["nodejs", "rust", "docker"]);
        assert_eq!(
            report.result,
            Err(InstallError::UnknownFeature { name: "rust".to_string() })
        );
        assert_eq!(report.outcomes, vec![FeatureOutcome::Success]);
        assert!(!host.attempted("docker"));
    }
}

#[test]
fn unknown_feature_after_a_tolerated_failure_still_aborts() {
    let mut host = Host::new(&[], &["python3"]);
    let report = host.run(&installer(false), &["python", "nope"]);
    assert_eq!(report.result, Err(InstallError::UnknownFeature { name: "nope".to_string() }));
    assert_eq!(report.outcomes, vec![FeatureOutcome::Failed(python_failure())]);
}

#[test]
fn failed_verification_fails_the_feature() {
    let mut host = Host::new(&[], &[]);
    let it = installer(true);
    let requested = names(&["docker"]);
    let mut log: Vec<Outcome> = Vec::new();
    let report = loop {
        match it.install_features(&requested, &log) {
            Step::Perform(action) => {
                let mut outcome = host.perform(&action);
                if host.lines.last().map(|l| l.as_str()) == Some("docker --version") {
                    outcome = fail();
                }
                log.push(outcome);
            }
            Step::Done(report) => break report,
        }
    };
    let cause = InstallError::VerificationFailed { feature: "docker".to_string() };
    assert_eq!(report.outcomes, vec![FeatureOutcome::Failed(cause.clone())]);
    assert_eq!(report.result, Err(cause));
}

#[test]
fn single_feature_goes_from_probe_to_install_to_verify() {
    let it = installer(true);
    let mut host = Host::new(&[], &[]);
    let mut log: Vec<Outcome> = Vec::new();
    let outcome = loop {
        match it.install_single_feature("nodejs", &log, 0) {
            Progress::Pending(action) => log.push(host.perform(&action)),
            Progress::Finished(outcome, at) => {
                assert_eq!(at, log.len());
                break outcome;
            }
        }
    };
    assert_eq!(outcome, Ok(FeatureOutcome::Success));
    assert_eq!(
        host.lines,
        vec![
            "node --version",
            "node --version",
            "curl -fsSL https://deb.nodesource.com/setup_18.x",
            "sudo bash -c curl -fsSL https://deb.nodesource.com/setup_18.x | sudo -E bash -",
            "sudo apt-get install -y nodejs",
            "node --version",
            "node --version",
            "log: nodejs installed successfully: v1",
            "npm --version",
        ]
    );
    assert_eq!(
        it.install_single_feature("nothing", &log, 3),
        Progress::Finished(Err(InstallError::UnknownFeature { name: "nothing".to_string() }), 3)
    );
}

#[test]
fn report_tells_whether_any_feature_failed() {
    let mut host = Host::new(&[], &["python3"]);
    let lenient = host.run(&installer(false), &["nodejs", "python"]);
    assert_eq!(lenient.result, Ok(()));
    assert!(lenient.has_failures());
    let mut host = Host::new(&[], &[]);
    let clean = host.run(&installer(false), &["nodejs", "python"]);
    assert!(!clean.has_failures());
    assert!(!RunReport { outcomes: Vec::new(), result: Ok(()) }.has_failures());
    assert!(!RunReport { outcomes: vec![FeatureOutcome::Skipped], result: Ok(()) }.has_failures());
}

#[test]
fn feature_state_follows_the_log() {
    let it = installer(true);
    let mut host = Host::new(&[], &[]);
    let mut log: Vec<Outcome> = Vec::new();
    let mut seen: Vec<LifecycleState> = Vec::new();
    loop {
        let state = it.feature_state("nodejs", &log, 0).unwrap();
        if seen.last() != Some(&state) {
            seen.push(state);
        }
        match it.install_single_feature("nodejs", &log, 0) {
            Progress::Pending(action) => log.push(host.perform(&action)),
            Progress::Finished(..) => break,
        }
    }
    assert_eq!(
        seen,
        vec![
            LifecycleState::NotProbed,
            LifecycleState::Installing,
            LifecycleState::Verifying,
            LifecycleState::Verified,
        ]
    );
    log.push(fail());
    assert_eq!(it.feature_state("nodejs", &log, 0), Ok(LifecycleState::Verified));
    assert_eq!(it.feature_state("nodejs", &vec![ok()], 0), Ok(LifecycleState::Skipped));
    assert_eq!(
        it.feature_state("nodejs", &vec![fail(), fail(), fail()], 0),
        Ok(LifecycleState::InstallFailed)
    );
    assert_eq!(
        it.feature_state("nodejs", &vec![fail(), fail(), ok(), ok(), ok(), fail()], 0),
        Ok(LifecycleState::VerifyFailed)
    );
    assert_eq!(
        it.feature_state("gcc", &log, 0),
        Err(InstallError::UnknownFeature { name: "gcc".to_string() })
    );
}

#[test]
fn every_run_ends_within_its_bound() {
    let requested = names(&["uv", "docker", "python", "nodejs"]);
    for fail_fast in [true, false] {
        for works in [true, false] {
            let it = installer(fail_fast);
            let mut log: Vec<Outcome> = Vec::new();
            let report = loop {
                match it.install_features(&requested, &log) {
                    Step::Perform(_) => log.push(if works { Outcome::Done } else { fail() }),
                    Step::Done(report) => break report,
                }
            };
            assert!(log.len() <= 33 * requested.len());
            let mut longer = log.clone();
            longer.push(ok());
            longer.push(fail());
            assert_eq!(it.install_features(&requested, &longer), Step::Done(report));
        }
    }
}

#[test]
fn requesting_uv_on_debian_falls_back_to_the_installer_script() {
    let debian = OsInfo { name: "debian".to_string(), version: "12".to_string(), ..ubuntu() };
    let it = FeatureInstaller::new(InstallerConfig::default(), debian, "/home/r").unwrap();
    let requested = names(&["uv"]);
    let mut installed = false;
    let mut startup_file = String::from("# ~/.bashrc\n");
    let mut trace: Vec<String> = Vec::new();
    let mut log: Vec<Outcome> = Vec::new();
    let report = loop {
        let action = match it.install_features(&requested, &log) {
            Step::Perform(action) => action,
            Step::Done(report) => break report,
        };
        let outcome = match &action {
            Action::Run(cmd) => {
                let line = cmd.line();
                trace.push(line.clone());
                if line == "/home/r/.cargo/bin/uv --version" && installed {
                    Outcome::Exited {
                        code: Some(0),
                        stdout: "uv 0.4.29\n".to_string(),
                        stderr: String::new(),
                    }
                } else if line.ends_with("uv --version") || line.starts_with("sudo apt-get") {
                    fail()
                } else {
                    if line.starts_with("sh -c curl") {
                        installed = true;
                    }
                    ok()
                }
            }
            Action::PathExists { path } => {
                trace.push(format!("exists? {}", path));
                if path == "/home/r/.cargo/bin/uv" || path == "/home/r/.cargo/env" {
                    Outcome::Done
                } else {
                    Outcome::Failed { reason: String::new() }
                }
            }
            Action::ReadFile { path } => {
                trace.push(format!("read {}", path));
                Outcome::Contents { text: startup_file.clone() }
            }
            Action::AppendFile { path, text } => {
                trace.push(format!("append {}", path));
                startup_file.push_str(text);
                Outcome::Done
            }
            Action::Log { level, message } => {
                assert_eq!(*level, LogLevel::Info);
                trace.push(format!("info: {}", message));
                Outcome::Done
            }
            other => panic!("unexpected action {:?}", other),
        };
        log.push(outcome);
    };
    assert_eq!(report, RunReport { outcomes: vec![FeatureOutcome::Success], result: Ok(()) });
    let probe = vec![
        "uv --version",
        "/home/r/.cargo/bin/uv --version",
        "/usr/local/bin/uv --version",
        "/usr/bin/uv --version",
    ];
    let mut expected: Vec<&str> = Vec::new();
    expected.extend(&probe);
    expected.extend(&probe);
    expected.extend(&[
        "sudo apt-get install -y uv",
        "curl --version",
        "sh -c curl -LsSf https://astral.sh/uv/0.4.29/install.sh | sh",
        "exists? /home/r/.cargo/bin/uv",
        "exists? /home/r/.cargo/env",
        "read /home/r/.bashrc",
        "append /home/r/.bashrc",
        "uv --version",
        "/home/r/.cargo/bin/uv --version",
        "exists? /home/r/.cargo/bin/uv",
        "/home/r/.cargo/bin/uv --version",
        "info: uv installed successfully: uv 0.4.29",
        "/home/r/.cargo/bin/uv --help",
    ]);
    assert_eq!(trace, expected);
    assert_eq!(
        startup_file,
        "# ~/.bashrc\n\n# Added by runner-installer for cargo/uv\nsource $HOME/.cargo/env\n"
    );
}
