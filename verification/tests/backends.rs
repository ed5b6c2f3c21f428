use runner_installer::error::InstallError;
use runner_installer::host::{Action, Command, Outcome};
use runner_installer::os::{OsFamily, OsInfo};
use runner_installer::package_managers::{
    create_package_manager, sudo, sudo_bash, ApkPackageManager, AptPackageManager, Backend,
    BrewPackageManager, ChocolateyPackageManager, PackageManager, YumPackageManager,
};
use runner_installer::progress::{
    any_succeeds, attempt, best_effort, first_existing, ignored, launch, run_all, Progress,
};

fn os(family: OsFamily, name: &str) -> OsInfo {
    OsInfo {
        name: name.to_string(),
        version: "1".to_string(),
        arch: "x86_64".to_string(),
        family,
    }
}

fn exited(code: i32) -> Outcome {
    Outcome::Exited { code: Some(code), stdout: String::new(), stderr: format!("status {}", code) }
}

fn line(cmd: &Command) -> String {
    cmd.line()
}

#[test]
fn linux_distributions_select_their_backend() {
    for name in ["ubuntu", "debian"] {
        let pm = create_package_manager(&os(OsFamily::Linux, name)).unwrap();
        assert_eq!(pm, Backend::Apt(AptPackageManager));
        assert_eq!(pm.name(), "apt");
    }
    for name in ["centos", "rhel", "fedora"] {
        let pm = create_package_manager(&os(OsFamily::Linux, name)).unwrap();
        assert_eq!(pm, Backend::Yum(YumPackageManager));
        assert_eq!(pm.name(), "yum");
    }
    let pm = create_package_manager(&os(OsFamily::Linux, "alpine")).unwrap();
    assert_eq!(pm, Backend::Apk(ApkPackageManager));
    assert_eq!(pm.name(), "apk");
}

#[test]
fn unrecognised_linux_distribution_defaults_to_apt() {
    for name in ["arch", "linux", "unknown", "", "Ubuntu"] {
        let pm = create_package_manager(&os(OsFamily::Linux, name)).unwrap();
        assert_eq!(pm, Backend::Apt(AptPackageManager));
    }
}

#[test]
fn windows_and_macos_select_their_backend() {
    let win = create_package_manager(&os(OsFamily::Windows, "windows")).unwrap();
    assert_eq!(win, Backend::Chocolatey(ChocolateyPackageManager));
    assert_eq!(win.name(), "chocolatey");
    let mac = create_package_manager(&os(OsFamily::MacOs, "macos")).unwrap();
    assert_eq!(mac, Backend::Brew(BrewPackageManager));
    assert_eq!(mac.name(), "homebrew");
}

#[test]
fn unknown_family_has_no_backend() {
    assert_eq!(
        create_package_manager(&os(OsFamily::Unknown, "ubuntu")),
        Err(InstallError::UnsupportedPlatform)
    );
}

#[test]
fn backend_selection_is_repeatable_and_ignores_version_and_architecture() {
    let a = OsInfo {
        name: "fedora".to_string(),
        version: "39".to_string(),
        arch: "x86_64".to_string(),
        family: OsFamily::Linux,
    };
    let b = OsInfo {
        name: "fedora".to_string(),
        version: "40".to_string(),
        arch: "aarch64".to_string(),
        family: OsFamily::Linux,
    };
    let first = create_package_manager(&a).unwrap();
    assert_eq!(create_package_manager(&a).unwrap(), first);
    assert_eq!(create_package_manager(&b).unwrap(), first);
}

#[test]
fn apt_commands() {
    let pm = AptPackageManager::new();
    assert_eq!(line(&pm.update_command()), "sudo apt-get update");
    assert_eq!(line(&pm.install_command("curl")), "sudo apt-get install -y curl");
    assert_eq!(line(&pm.query_command("curl")), "dpkg -l curl");
    assert_eq!(line(&pm.privileged_command("ln", &["-sf", "a", "b"])), "sudo ln -sf a b");
    assert_eq!(AptPackageManager::default(), pm);
}

#[test]
fn yum_commands() {
    let pm = YumPackageManager::new();
    assert_eq!(pm.name(), "yum");
    assert_eq!(line(&pm.update_command()), "sudo yum update -y");
    assert_eq!(line(&pm.install_command("git")), "sudo yum install -y git");
    assert_eq!(line(&pm.query_command("git")), "rpm -q git");
    assert_eq!(line(&pm.privileged_command("true", &[])), "sudo true");
    assert_eq!(YumPackageManager::default(), pm);
}

#[test]
fn apk_commands() {
    let pm = ApkPackageManager::new();
    assert_eq!(pm.name(), "apk");
    assert_eq!(line(&pm.update_command()), "sudo apk update");
    assert_eq!(line(&pm.install_command("npm")), "sudo apk add --no-cache npm");
    assert_eq!(line(&pm.query_command("npm")), "apk info -e npm");
    assert_eq!(line(&pm.privileged_command("rc-update", &["add", "docker"])), "sudo rc-update add docker");
    assert_eq!(ApkPackageManager::default(), pm);
}

#[test]
fn chocolatey_commands_are_not_elevated() {
    let pm = ChocolateyPackageManager::new();
    assert_eq!(line(&pm.update_command()), "choco upgrade all -y");
    assert_eq!(line(&pm.install_command("nodejs")), "choco install nodejs -y");
    assert_eq!(line(&pm.query_command("nodejs")), "choco list --local-only nodejs");
    let direct = pm.privileged_command("sc", &["start", "docker"]);
    assert_eq!(direct.program, "sc");
    assert_eq!(direct.args, vec!["start".to_string(), "docker".to_string()]);
    assert_eq!(ChocolateyPackageManager::default(), pm);
}

#[test]
fn brew_commands() {
    let pm = BrewPackageManager::new();
    assert_eq!(line(&pm.update_command()), "brew update");
    assert_eq!(line(&pm.install_command("node")), "brew install node");
    assert_eq!(line(&pm.query_command("node")), "brew list node");
    assert_eq!(line(&pm.privileged_command("ln", &["-sf", "a", "b"])), "sudo ln -sf a b");
    assert_eq!(BrewPackageManager::default(), pm);
}

#[test]
fn selected_backend_builds_the_commands_of_its_kind() {
    let pm = create_package_manager(&os(OsFamily::Linux, "alpine")).unwrap();
    assert_eq!(line(&pm.update_command()), "sudo apk update");
    assert_eq!(line(&pm.install_command("docker")), "sudo apk add --no-cache docker");
    assert_eq!(line(&pm.query_command("docker")), "apk info -e docker");
    assert_eq!(line(&pm.privileged_command("a", &["b"])), "sudo a b");
    let win = create_package_manager(&os(OsFamily::Windows, "windows")).unwrap();
    assert_eq!(line(&win.privileged_command("a", &["b"])), "a b");
}

#[test]
fn sudo_puts_the_command_behind_the_wrapper() {
    let cmd = sudo("usermod", &["-aG", "docker", "runner"]);
    assert_eq!(cmd.program, "sudo");
    assert_eq!(cmd.args, vec!["usermod", "-aG", "docker", "runner"]);
    let shell = sudo_bash("curl x | sh");
    assert_eq!(shell.program, "sudo");
    assert_eq!(shell.args, vec!["bash", "-c", "curl x | sh"]);
}

#[test]
fn update_asks_for_the_command_then_judges_its_outcome() {
    let pm = AptPackageManager::new();
    let log: Vec<Outcome> = Vec::new();
    assert_eq!(pm.update(&log, 0), Progress::Pending(Action::Run(pm.update_command())));
    assert_eq!(pm.update(&vec![exited(0)], 0), Progress::Finished(Ok(()), 1));
    assert_eq!(
        pm.update(&vec![exited(0), exited(100)], 1),
        Progress::Finished(
            Err(InstallError::CommandFailed {
                command: "sudo apt-get update".to_string(),
                exit_status: Some(100),
                stderr: "status 100".to_string(),
            }),
            2
        )
    );
}

#[test]
fn install_failure_carries_command_line_and_exit_status() {
    let pm = YumPackageManager::new();
    assert_eq!(
        pm.install("git", &Vec::new(), 0),
        Progress::Pending(Action::Run(pm.install_command("git")))
    );
    assert_eq!(pm.install("git", &vec![exited(0)], 0), Progress::Finished(Ok(()), 1));
    assert_eq!(
        pm.install("git", &vec![exited(1)], 0),
        Progress::Finished(
            Err(InstallError::CommandFailed {
                command: "sudo yum install -y git".to_string(),
                exit_status: Some(1),
                stderr: "status 1".to_string(),
            }),
            1
        )
    );
}

#[test]
fn is_installed_is_the_success_of_the_query() {
    let pm = BrewPackageManager::new();
    assert_eq!(
        pm.is_installed("node", &Vec::new(), 0),
        Progress::Pending(Action::Run(pm.query_command("node")))
    );
    assert_eq!(pm.is_installed("node", &vec![exited(0)], 0), Progress::Finished(true, 1));
    assert_eq!(pm.is_installed("node", &vec![exited(1)], 0), Progress::Finished(false, 1));
    let missing = Outcome::Failed { reason: "not found".to_string() };
    assert_eq!(pm.is_installed("node", &vec![missing], 0), Progress::Finished(false, 1));
}

#[test]
fn execute_command_elevates_except_on_windows() {
    let apt = AptPackageManager::new();
    assert_eq!(
        apt.execute_command("ln", &["-sf", "a", "b"], &Vec::new(), 0),
        Progress::Pending(Action::Run(sudo("ln", &["-sf", "a", "b"])))
    );
    let choco = ChocolateyPackageManager::new();
    assert_eq!(
        choco.execute_command("ln", &["-sf", "a", "b"], &Vec::new(), 0),
        Progress::Pending(Action::Run(Command::new("ln", &["-sf", "a", "b"])))
    );
    assert_eq!(
        choco.execute_command("ln", &[], &vec![exited(3)], 0),
        Progress::Finished(
            Err(InstallError::CommandFailed {
                command: "ln".to_string(),
                exit_status: Some(3),
                stderr: "status 3".to_string(),
            }),
            1
        )
    );
}

#[test]
fn run_all_stops_at_the_first_failure() {
    let cmds = vec![Command::new("a", &[]), Command::new("b", &["x"]), Command::new("c", &[])];
    assert_eq!(run_all(&cmds, &Vec::new(), 0), Progress::Pending(Action::Run(Command::new("a", &[]))));
    assert_eq!(
        run_all(&cmds, &vec![exited(0)], 0),
        Progress::Pending(Action::Run(Command::new("b", &["x"])))
    );
    assert_eq!(
        run_all(&cmds, &vec![exited(0), exited(2), exited(0)], 0),
        Progress::Finished(
            Err(InstallError::CommandFailed {
                command: "b x".to_string(),
                exit_status: Some(2),
                stderr: "status 2".to_string(),
            }),
            2
        )
    );
    assert_eq!(run_all(&cmds, &vec![exited(0), exited(0), exited(0)], 0), Progress::Finished(Ok(()), 3));
    assert_eq!(run_all(&Vec::new(), &Vec::new(), 0), Progress::Finished(Ok(()), 0));
    assert_eq!(run_all(&cmds, &vec![exited(0)], 5), Progress::Pending(Action::Run(Command::new("a", &[]))));
}

#[test]
fn any_succeeds_stops_at_the_first_success() {
    let cmds = vec![Command::new("a", &[]), Command::new("b", &[])];
    assert_eq!(any_succeeds(&cmds, &vec![exited(0)], 0), Progress::Finished(true, 1));
    assert_eq!(
        any_succeeds(&cmds, &vec![exited(1)], 0),
        Progress::Pending(Action::Run(Command::new("b", &[])))
    );
    assert_eq!(any_succeeds(&cmds, &vec![exited(1), exited(0)], 0), Progress::Finished(true, 2));
    assert_eq!(any_succeeds(&cmds, &vec![exited(1), exited(1)], 0), Progress::Finished(false, 2));
    assert_eq!(any_succeeds(&Vec::new(), &Vec::new(), 0), Progress::Finished(false, 0));
}

#[test]
fn first_existing_falls_back_to_the_bare_name() {
    let paths = vec!["/a/uv".to_string(), "/b/uv".to_string()];
    let no = Outcome::Failed { reason: String::new() };
    assert_eq!(
        first_existing(&paths, "uv", &Vec::new(), 0),
        Progress::Pending(Action::PathExists { path: "/a/uv".to_string() })
    );
    assert_eq!(
        first_existing(&paths, "uv", &vec![no.clone(), Outcome::Done], 0),
        Progress::Finished("/b/uv".to_string(), 2)
    );
    assert_eq!(
        first_existing(&paths, "uv", &vec![no.clone(), no.clone()], 0),
        Progress::Finished("uv".to_string(), 2)
    );
}

#[test]
fn single_steps_differ_in_what_they_forgive() {
    let cmd = || Command::new("x", &[]);
    let missing = Outcome::Failed { reason: "not found".to_string() };
    assert_eq!(attempt(Action::Run(cmd()), &vec![exited(1)], 0), Progress::Finished(false, 1));
    assert_eq!(attempt(Action::Run(cmd()), &Vec::new(), 0), Progress::Pending(Action::Run(cmd())));
    assert_eq!(launch(cmd(), &vec![exited(1)], 0), Progress::Finished(Ok(()), 1));
    assert_eq!(
        launch(cmd(), &vec![missing.clone()], 0),
        Progress::Finished(
            Err(InstallError::CommandFailed {
                command: "x".to_string(),
                exit_status: None,
                stderr: "not found".to_string(),
            }),
            1
        )
    );
    assert_eq!(ignored(cmd(), &vec![missing.clone()], 0), Progress::Finished(Ok(()), 1));
    assert_eq!(ignored(cmd(), &Vec::new(), 0), Progress::Pending(Action::Run(cmd())));
    assert_eq!(best_effort(cmd(), "w", &vec![exited(0)], 0), Progress::Finished(Ok(()), 1));
    assert_eq!(
        best_effort(cmd(), "w", &vec![exited(1)], 0),
        Progress::Pending(Action::Log {
            level: runner_installer::host::LogLevel::Warn,
            message: "w".to_string()
        })
    );
    assert_eq!(best_effort(cmd(), "w", &vec![exited(1), Outcome::Done], 0), Progress::Finished(Ok(()), 2));
}
