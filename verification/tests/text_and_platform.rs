use runner_installer::config::InstallerConfig;
use runner_installer::error::InstallError;
use runner_installer::host::{Command, Outcome};
use runner_installer::os::{
    detect_linux_info, detect_macos_info, detect_os, detect_windows_info, read_field, OsFamily,
};
use runner_installer::text::{chars_of, occurs_within, text_contains, text_eq, trim, trim_bounds, Trim};

#[test]
fn default_configuration_stops_at_first_failure() {
    let config = InstallerConfig::default();
    assert!(config.fail_fast);
    assert_eq!(config.timeout, 300);
    assert!(config.update_packages);
}

#[test]
fn text_eq_compares_characters() {
    assert!(text_eq("ubuntu", "ubuntu"));
    assert!(!text_eq("ubuntu", "ubuntu "));
    assert!(!text_eq("", "x"));
    assert!(text_eq("", ""));
}

#[test]
fn chars_of_keeps_every_character() {
    assert_eq!(chars_of("a\u{e9}b"), vec!['a', '\u{e9}', 'b']);
    assert_eq!(chars_of(""), Vec::<char>::new());
}

#[test]
fn occurs_within_respects_the_end() {
    let hay = chars_of("ID=ubuntu");
    let key = chars_of("ID=");
    assert!(occurs_within(&hay, 0, 9, &key));
    assert!(occurs_within(&hay, 0, 3, &key));
    assert!(!occurs_within(&hay, 0, 2, &key));
    assert!(!occurs_within(&hay, 1, 9, &key));
}

#[test]
fn text_contains_finds_a_marker_anywhere() {
    assert!(text_contains("export A=1\nsource $HOME/.cargo/env\n", "source $HOME/.cargo/env"));
    assert!(text_contains("source $HOME/.cargo/env", "source $HOME/.cargo/env"));
    assert!(!text_contains("source $HOME/.cargo/en", "source $HOME/.cargo/env"));
    assert!(text_contains("anything", ""));
    assert!(text_contains("", ""));
    assert!(!text_contains("", "x"));
    assert!(text_contains("aab", "ab"));
}

#[test]
fn trim_removes_whitespace_at_both_ends_only() {
    assert_eq!(trim("  runner \n", Trim::Whitespace), "runner");
    assert_eq!(trim("\tdocker  version 24\r\n", Trim::Whitespace), "docker  version 24");
    assert_eq!(trim(" \n\t ", Trim::Whitespace), "");
    assert_eq!(trim("", Trim::Whitespace), "");
    assert_eq!(trim("\"quoted\"", Trim::Whitespace), "\"quoted\"");
}

#[test]
fn trim_removes_every_surrounding_quote() {
    assert_eq!(trim("\"22.04\"", Trim::Quotes), "22.04");
    assert_eq!(trim("\"\"a\"b\"\"", Trim::Quotes), "a\"b");
    assert_eq!(trim("\"\"", Trim::Quotes), "");
    assert_eq!(trim(" \"x\"", Trim::Quotes), " \"x");
}

#[test]
fn trim_bounds_stay_inside_the_window() {
    let chars = chars_of("xx  ab  yy");
    assert_eq!(trim_bounds(&chars, 2, 8, Trim::Whitespace), (4, 6));
    assert_eq!(trim_bounds(&chars, 2, 4, Trim::Whitespace), (4, 4));
    assert_eq!(trim_bounds(&chars, 0, 10, Trim::Whitespace), (0, 10));
}

#[test]
fn read_field_takes_the_last_assignment_without_quotes() {
    let text = "NAME=\"Ubuntu\"\nID=ubuntu\nVERSION_ID=\"22.04\"\nID_LIKE=debian\n";
    assert_eq!(read_field(text, "ID=", "linux"), "ubuntu");
    assert_eq!(read_field(text, "VERSION_ID=", "unknown"), "22.04");
    assert_eq!(read_field("ID=a\nID=b", "ID=", "linux"), "b");
}

#[test]
fn read_field_falls_back_when_the_key_is_missing() {
    assert_eq!(read_field("NAME=x\nVERSION_ID=3\n", "ID=", "linux"), "linux");
    assert_eq!(read_field("", "ID=", "linux"), "linux");
    assert_eq!(read_field("\n\n", "VERSION_ID=", "unknown"), "unknown");
    assert_eq!(read_field(" ID=indented", "ID=", "linux"), "linux");
}

#[test]
fn read_field_drops_a_carriage_return_at_the_line_end() {
    assert_eq!(read_field("ID=alpine\r\nVERSION_ID=3.19\r\n", "ID=", "linux"), "alpine");
    assert_eq!(read_field("ID=\"rhel\"\r", "ID=", "linux"), "rhel");
    assert_eq!(read_field("ID=", "ID=", "linux"), "");
}

#[test]
fn linux_metadata_gives_distribution_and_version() {
    let info = detect_linux_info(
        "x86_64".to_string(),
        Some("PRETTY_NAME=\"Debian GNU/Linux 12\"\nID=debian\nVERSION_ID=\"12\"\n"),
    )
    .unwrap();
    assert_eq!(info.name, "debian");
    assert_eq!(info.version, "12");
    assert_eq!(info.arch, "x86_64");
    assert_eq!(info.family, OsFamily::Linux);
}

#[test]
fn missing_linux_metadata_degrades_to_defaults() {
    let info = detect_linux_info("aarch64".to_string(), None).unwrap();
    assert_eq!(info.name, "linux");
    assert_eq!(info.version, "unknown");
    assert_eq!(info.arch, "aarch64");
    assert_eq!(info.family, OsFamily::Linux);
}

#[test]
fn unparsable_linux_metadata_degrades_to_defaults() {
    let info = detect_linux_info("x86_64".to_string(), Some("this is not metadata")).unwrap();
    assert_eq!(info.name, "linux");
    assert_eq!(info.version, "unknown");
    assert_eq!(info.family, OsFamily::Linux);
}

#[test]
fn windows_and_macos_descriptors_are_fixed() {
    let win = detect_windows_info("x86_64".to_string()).unwrap();
    assert_eq!(win.name, "windows");
    assert_eq!(win.version, "unknown");
    assert_eq!(win.family, OsFamily::Windows);
    let mac = detect_macos_info("aarch64".to_string()).unwrap();
    assert_eq!(mac.name, "macos");
    assert_eq!(mac.version, "unknown");
    assert_eq!(mac.arch, "aarch64");
    assert_eq!(mac.family, OsFamily::MacOs);
}

#[test]
fn detect_os_dispatches_on_the_operating_system() {
    let linux = detect_os("linux", "x86_64".to_string(), Some("ID=fedora\nVERSION_ID=39\n"));
    let linux = linux.unwrap();
    assert_eq!(linux.name, "fedora");
    assert_eq!(linux.version, "39");
    assert_eq!(detect_os("windows", "x86_64".to_string(), None).unwrap().family, OsFamily::Windows);
    assert_eq!(detect_os("macos", "x86_64".to_string(), None).unwrap().family, OsFamily::MacOs);
}

#[test]
fn detect_os_rejects_an_unsupported_operating_system() {
    assert_eq!(
        detect_os("freebsd", "x86_64".to_string(), None),
        Err(InstallError::UnsupportedPlatform)
    );
    assert_eq!(detect_os("", "x86_64".to_string(), None), Err(InstallError::UnsupportedPlatform));
}

#[test]
fn command_line_joins_program_and_arguments() {
    assert_eq!(Command::new("sudo", &["apt-get", "install", "-y", "curl"]).line(), "sudo apt-get install -y curl");
    assert_eq!(Command::new("whoami", &[]).line(), "whoami");
    let copy = Command::new("sh", &["-c", "a | b"]).duplicate();
    assert_eq!(copy.program, "sh");
    assert_eq!(copy.args, vec!["-c".to_string(), "a | b".to_string()]);
}

#[test]
fn command_failure_carries_line_status_and_stderr() {
    let cmd = Command::new("sudo", &["apt-get", "update"]);
    let outcome = Outcome::Exited {
        code: Some(100),
        stdout: String::new(),
        stderr: "E: could not get lock".to_string(),
    };
    assert_eq!(
        cmd.failure(&outcome),
        InstallError::CommandFailed {
            command: "sudo apt-get update".to_string(),
            exit_status: Some(100),
            stderr: "E: could not get lock".to_string(),
        }
    );
    let missing = Outcome::Failed { reason: "No such file or directory".to_string() };
    assert_eq!(
        cmd.failure(&missing),
        InstallError::CommandFailed {
            command: "sudo apt-get update".to_string(),
            exit_status: None,
            stderr: "No such file or directory".to_string(),
        }
    );
}

#[test]
fn outcome_success_needs_exit_status_zero() {
    let ok = Outcome::Exited { code: Some(0), stdout: "v1\n".to_string(), stderr: String::new() };
    let bad = Outcome::Exited { code: Some(1), stdout: String::new(), stderr: "e".to_string() };
    let killed = Outcome::Exited { code: None, stdout: String::new(), stderr: String::new() };
    let failed = Outcome::Failed { reason: "r".to_string() };
    assert!(ok.succeeded() && ok.completed());
    assert!(!bad.succeeded() && bad.completed());
    assert!(!killed.succeeded() && killed.completed());
    assert!(!failed.succeeded() && !failed.completed());
    assert!(Outcome::Done.succeeded());
    assert!(Outcome::Contents { text: String::new() }.succeeded());
    assert_eq!(ok.stdout(), "v1\n");
    assert_eq!(failed.stdout(), "");
    assert_eq!(bad.diagnostics(), "e");
    assert_eq!(failed.diagnostics(), "r");
    assert_eq!(Outcome::Done.diagnostics(), "");
    assert_eq!(bad.exit_status(), Some(1));
    assert_eq!(failed.exit_status(), None);
}

#[test]
fn timed_out_command_is_a_failed_command() {
    let late = Outcome::TimedOut;
    assert!(!late.succeeded());
    assert!(!late.completed());
    assert_eq!(late.exit_status(), None);
    assert_eq!(late.stdout(), "");
    assert_eq!(late.diagnostics(), "timed out");
    assert_eq!(
        Command::new("sudo", &["apt-get", "update"]).failure(&late),
        InstallError::CommandFailed {
            command: "sudo apt-get update".to_string(),
            exit_status: None,
            stderr: "timed out".to_string(),
        }
    );
}

#[test]
fn error_messages_name_their_cause() {
    assert_eq!(InstallError::UnsupportedPlatform.message(), "Unsupported operating system");
    assert_eq!(
        InstallError::UnknownFeature { name: "unknown-feature".to_string() }.message(),
        "Unknown feature: unknown-feature"
    );
    assert_eq!(
        InstallError::CommandFailed {
            command: "sudo apt-get update".to_string(),
            exit_status: Some(1),
            stderr: String::new(),
        }
        .message(),
        "Command failed: sudo apt-get update"
    );
    assert_eq!(
        InstallError::VerificationFailed { feature: "docker".to_string() }.message(),
        "docker installation verification failed"
    );
    let e = InstallError::UnknownFeature { name: "x".to_string() };
    assert_eq!(e.duplicate(), e);
}
