use runner_installer::features::uv::Uv;
use runner_installer::host::{Action, LogLevel, Outcome};
use runner_installer::os::{OsFamily, OsInfo};
use runner_installer::progress::Progress;
use runner_installer::remediation::{
    add_user_bin_to_path, addition_for, ensure_line, link_system_wide, path_under, remediate,
    unresolved, update_shell_profile, ProfileEdit, Remedy,
};

const ENV_MARKER: &str = "source $HOME/.cargo/env";
const BIN_MARKER: &str = "export PATH=\"$HOME/bin:$PATH\"";

/// A small file system and process table for the host side of a remediation.
struct Machine {
    existing: Vec<String>,
    startup_file: Option<String>,
    startup_file_writable: bool,
    direct_links_allowed: bool,
    sudo_allowed: bool,
    user_dir_creatable: bool,
    links: Vec<(String, String)>,
    warnings: Vec<String>,
    appends: usize,
}

impl Machine {
    fn new(existing: &[&str]) -> Machine {
        Machine {
            existing: existing.iter().map(|s| s.to_string()).collect(),
            startup_file: Some(String::from("alias ll='ls -l'\n")),
            startup_file_writable: true,
            direct_links_allowed: true,
            sudo_allowed: true,
            user_dir_creatable: true,
            links: Vec::new(),
            warnings: Vec::new(),
            appends: 0,
        }
    }

    fn perform(&mut self, action: &Action) -> Outcome {
        let refused = Outcome::Failed { reason: "Permission denied".to_string() };
        match action {
            Action::PathExists { path } => {
                if self.existing.contains(path) {
                    Outcome::Done
                } else {
                    Outcome::Failed { reason: String::new() }
                }
            }
            Action::ReadFile { .. } => match &self.startup_file {
                Some(text) => Outcome::Contents { text: text.clone() },
                None => Outcome::Failed { reason: "No such file".to_string() },
            },
            Action::AppendFile { text, .. } => {
                if !self.startup_file_writable {
                    return refused;
                }
                self.appends += 1;
                let mut now = self.startup_file.clone().unwrap_or_default();
                now.push_str(text);
                self.startup_file = Some(now);
                Outcome::Done
            }
            Action::Symlink { target, link } => {
                let system = link.starts_with("/usr/local/bin");
                if system && !self.direct_links_allowed {
                    return refused;
                }
                self.links.push((link.clone(), target.clone()));
                Outcome::Done
            }
            Action::CreateDirAll { path } => {
                if !self.user_dir_creatable {
                    return refused;
                }
                self.existing.push(path.clone());
                Outcome::Done
            }
            Action::Run(cmd) => {
                if cmd.program == "sudo" && self.sudo_allowed {
                    self.links.push((cmd.args[3].clone(), cmd.args[2].clone()));
                    Outcome::Exited { code: Some(0), stdout: String::new(), stderr: String::new() }
                } else {
                    Outcome::Exited { code: Some(1), stdout: String::new(), stderr: String::new() }
                }
            }
            Action::Log { level, message } => {
                assert_eq!(*level, LogLevel::Warn);
                self.warnings.push(message.clone());
                Outcome::Done
            }
        }
    }

    fn run<T>(&mut self, next: impl Fn(&Vec<Outcome>) -> Progress<T>) -> (T, Vec<Action>) {
        let mut log: Vec<Outcome> = Vec::new();
        let mut asked: Vec<Action> = Vec::new();
        loop {
            match next(&log) {
                Progress::Pending(action) => {
                    log.push(self.perform(&action));
                    asked.push(action);
                    assert!(asked.len() < 50);
                }
                Progress::Finished(value, at) => {
                    assert_eq!(at, log.len());
                    return (value, asked);
                }
            }
        }
    }

    fn remediate(&mut self) -> (Remedy, Vec<Action>) {
        self.run(|log| remediate("/home/r", "uv", "/home/r/.cargo/bin/uv", log, 0))
    }

    fn count(&self, marker: &str) -> usize {
        self.startup_file.as_deref().unwrap_or("").lines().filter(|l| *l == marker).count()
    }
}

#[test]
fn addition_for_guards_on_the_marker() {
    assert_eq!(addition_for(Some("a\nsource $HOME/.cargo/env\n"), ENV_MARKER, "# c"), None);
    assert_eq!(
        addition_for(Some("a\n"), ENV_MARKER, "# c"),
        Some("\n# c\nsource $HOME/.cargo/env\n".to_string())
    );
    assert_eq!(
        addition_for(Some(""), ENV_MARKER, "# c"),
        Some("\n# c\nsource $HOME/.cargo/env\n".to_string())
    );
    assert_eq!(
        addition_for(None, ENV_MARKER, "# c"),
        Some("# c\nsource $HOME/.cargo/env\n".to_string())
    );
}

#[test]
fn path_under_joins_without_a_separator_of_its_own() {
    assert_eq!(path_under("/home/r", "/.bashrc"), "/home/r/.bashrc");
    assert_eq!(path_under("", "/.cargo/bin/uv"), "/.cargo/bin/uv");
}

#[test]
fn ensure_line_reads_then_appends_what_is_missing() {
    let none: Vec<Outcome> = Vec::new();
    assert_eq!(
        ensure_line("/p", "m", "# c", &none, 0),
        Progress::Pending(Action::ReadFile { path: "/p".to_string() })
    );
    let read = Outcome::Contents { text: "x".to_string() };
    assert_eq!(
        ensure_line("/p", "m", "# c", &vec![read.clone()], 0),
        Progress::Pending(Action::AppendFile {
            path: "/p".to_string(),
            text: "\n# c\nm\n".to_string()
        })
    );
    assert_eq!(
        ensure_line("/p", "m", "# c", &vec![read.clone(), Outcome::Done], 0),
        Progress::Finished(ProfileEdit::Appended, 2)
    );
    let refused = Outcome::Failed { reason: "read-only".to_string() };
    assert_eq!(
        ensure_line("/p", "m", "# c", &vec![read, refused.clone()], 0),
        Progress::Finished(ProfileEdit::Failed, 2)
    );
    let marked = Outcome::Contents { text: "am\n".to_string() };
    assert_eq!(
        ensure_line("/p", "m", "# c", &vec![marked], 0),
        Progress::Finished(ProfileEdit::AlreadyPresent, 1)
    );
    assert_eq!(
        ensure_line("/p", "m", "# c", &vec![refused], 0),
        Progress::Pending(Action::AppendFile { path: "/p".to_string(), text: "# c\nm\n".to_string() })
    );
}

#[test]
fn remediation_is_not_needed_when_the_binary_is_elsewhere() {
    let mut machine = Machine::new(&["/home/r/.cargo/env", "/usr/local/bin"]);
    let (remedy, asked) = machine.remediate();
    assert_eq!(remedy, Remedy::NotNeeded);
    assert_eq!(asked, vec![Action::PathExists { path: "/home/r/.cargo/bin/uv".to_string() }]);
    assert_eq!(machine.appends, 0);
}

#[test]
fn first_tier_sources_the_environment_file() {
    let mut machine = Machine::new(&["/home/r/.cargo/bin/uv", "/home/r/.cargo/env"]);
    let (remedy, asked) = machine.remediate();
    assert_eq!(remedy, Remedy::ProfileSourced);
    assert_eq!(
        machine.startup_file.as_deref(),
        Some("alias ll='ls -l'\n\n# Added by runner-installer for cargo/uv\nsource $HOME/.cargo/env\n")
    );
    assert_eq!(asked.len(), 4);
    assert!(machine.links.is_empty());
}

#[test]
fn first_tier_creates_the_startup_file_when_it_is_absent() {
    let mut machine = Machine::new(&["/home/r/.cargo/bin/uv", "/home/r/.cargo/env"]);
    machine.startup_file = None;
    let (sourced, asked) = machine.run(|log| update_shell_profile("/home/r", log, 0));
    assert!(sourced);
    assert_eq!(
        machine.startup_file.as_deref(),
        Some("# Added by runner-installer for cargo/uv\nsource $HOME/.cargo/env\n")
    );
    assert_eq!(
        asked,
        vec![
            Action::PathExists { path: "/home/r/.cargo/env".to_string() },
            Action::ReadFile { path: "/home/r/.bashrc".to_string() },
            Action::AppendFile {
                path: "/home/r/.bashrc".to_string(),
                text: "# Added by runner-installer for cargo/uv\nsource $HOME/.cargo/env\n"
                    .to_string()
            },
        ]
    );
}

#[test]
fn first_tier_is_skipped_without_the_environment_file() {
    let mut machine = Machine::new(&["/home/r/.cargo/bin/uv"]);
    let (sourced, asked) = machine.run(|log| update_shell_profile("/home/r", log, 0));
    assert!(!sourced);
    assert_eq!(asked.len(), 1);
    assert_eq!(machine.appends, 0);
}

#[test]
fn second_tier_links_into_the_system_directory() {
    let mut machine = Machine::new(&["/home/r/.cargo/bin/uv", "/usr/local/bin"]);
    let (remedy, asked) = machine.remediate();
    assert_eq!(remedy, Remedy::SystemLink);
    assert_eq!(
        machine.links,
        vec![("/usr/local/bin/uv".to_string(), "/home/r/.cargo/bin/uv".to_string())]
    );
    assert_eq!(
        asked.last(),
        Some(&Action::Symlink {
            target: "/home/r/.cargo/bin/uv".to_string(),
            link: "/usr/local/bin/uv".to_string()
        })
    );
    assert_eq!(machine.appends, 0);
}

#[test]
fn second_tier_retries_the_link_with_elevated_privileges() {
    let mut machine = Machine::new(&["/home/r/.cargo/bin/uv", "/usr/local/bin"]);
    machine.direct_links_allowed = false;
    let (remedy, asked) =
        machine.run(|log| link_system_wide("/home/r", "uv", "/home/r/.cargo/bin/uv", log, 0));
    assert_eq!(remedy, Remedy::SystemLink);
    match asked.last() {
        Some(Action::Run(cmd)) => {
            assert_eq!(cmd.line(), "sudo ln -sf /home/r/.cargo/bin/uv /usr/local/bin/uv")
        }
        other => panic!("unexpected last action {:?}", other),
    }
    assert_eq!(
        machine.links,
        vec![("/usr/local/bin/uv".to_string(), "/home/r/.cargo/bin/uv".to_string())]
    );
}

#[test]
fn third_tier_links_into_the_user_directory_and_extends_the_search_path() {
    let mut machine = Machine::new(&["/home/r/.cargo/bin/uv", "/usr/local/bin"]);
    machine.direct_links_allowed = false;
    machine.sudo_allowed = false;
    let (remedy, _) = machine.remediate();
    assert_eq!(remedy, Remedy::UserLink);
    assert_eq!(
        machine.links,
        vec![("/home/r/bin/uv".to_string(), "/home/r/.cargo/bin/uv".to_string())]
    );
    assert!(machine.existing.contains(&"/home/r/bin".to_string()));
    assert_eq!(
        machine.startup_file.as_deref(),
        Some("alias ll='ls -l'\n\n# Added by runner-installer for ~/bin\nexport PATH=\"$HOME/bin:$PATH\"\n")
    );
}

#[test]
fn third_tier_stands_even_when_the_startup_file_cannot_be_written() {
    let mut machine = Machine::new(&["/home/r/.cargo/bin/uv"]);
    machine.startup_file_writable = false;
    let (remedy, _) =
        machine.run(|log| add_user_bin_to_path("/home/r", "uv", "/home/r/.cargo/bin/uv", log, 0));
    assert_eq!(remedy, Remedy::UserLink);
    assert_eq!(machine.appends, 0);
}

#[test]
fn exhausted_remediation_warns_with_the_absolute_path() {
    let mut machine = Machine::new(&["/home/r/.cargo/bin/uv", "/usr/local/bin"]);
    machine.direct_links_allowed = false;
    machine.sudo_allowed = false;
    machine.user_dir_creatable = false;
    let (remedy, _) = machine.remediate();
    assert_eq!(remedy, Remedy::Unresolved);
    assert_eq!(
        machine.warnings,
        vec![
            "Could not create symlink for uv in any PATH directory. uv may not be accessible without using full path: /home/r/.cargo/bin/uv"
        ]
    );
    assert!(machine.links.is_empty());
    assert_eq!(
        unresolved("uv", "/x/uv", &vec![Outcome::Done], 0),
        Progress::Finished(Remedy::Unresolved, 1)
    );
}

#[test]
fn exhausted_remediation_still_lets_the_install_succeed() {
    let mut machine = Machine::new(&["/home/r/.cargo/bin/uv"]);
    machine.user_dir_creatable = false;
    let info = OsInfo {
        name: "ubuntu".to_string(),
        version: "22.04".to_string(),
        arch: "x86_64".to_string(),
        family: OsFamily::Linux,
    };
    let feature = Uv::new(info, "/home/r");
    let (result, asked) = machine.run(|log| feature.ensure_uv_in_path(log, 0));
    assert_eq!(result, Ok(()));
    assert_eq!(machine.warnings.len(), 1);
    assert!(matches!(asked.last(), Some(Action::Log { level: LogLevel::Warn, .. })));
}

#[test]
fn remediating_twice_leaves_exactly_one_marker_line() {
    let mut machine = Machine::new(&["/home/r/.cargo/bin/uv", "/home/r/.cargo/env"]);
    let (first, _) = machine.remediate();
    assert_eq!(first, Remedy::ProfileSourced);
    assert_eq!(machine.count(ENV_MARKER), 1);
    let after_first = machine.startup_file.clone();
    let (sourced, asked) = machine.run(|log| update_shell_profile("/home/r", log, 0));
    assert!(!sourced);
    assert!(!asked.iter().any(|a| matches!(a, Action::AppendFile { .. })));
    assert_eq!(machine.startup_file, after_first);
    assert_eq!(machine.count(ENV_MARKER), 1);
}

#[test]
fn repeated_remediation_never_duplicates_a_line() {
    let mut machine = Machine::new(&["/home/r/.cargo/bin/uv", "/home/r/.cargo/env"]);
    let mut remedies = Vec::new();
    for _ in 0..4 {
        remedies.push(machine.remediate().0);
    }
    assert_eq!(
        remedies,
        vec![Remedy::ProfileSourced, Remedy::UserLink, Remedy::UserLink, Remedy::UserLink]
    );
    assert_eq!(machine.count(ENV_MARKER), 1);
    assert_eq!(machine.count(BIN_MARKER), 1);
    assert_eq!(machine.appends, 2);
    let uv = Uv::new(
        OsInfo {
            name: "ubuntu".to_string(),
            version: "22.04".to_string(),
            arch: "x86_64".to_string(),
            family: OsFamily::Linux,
        },
        "/home/r",
    );
    let (remedy, _) = machine.run(|log| uv.add_user_bin_to_path(log, 0));
    assert_eq!(remedy, Remedy::UserLink);
    let (sourced, _) = machine.run(|log| uv.update_shell_profile(log, 0));
    assert!(!sourced);
    assert_eq!(machine.appends, 2);
}
