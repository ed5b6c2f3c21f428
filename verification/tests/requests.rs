use runner_installer::os::{OsFamily, OsInfo};
use runner_installer::package_managers::PackageManager;
use runner_installer::{FeatureInstaller, InstallerConfig, Step};

fn installer(family: OsFamily, name: &str) -> FeatureInstaller {
    let os = OsInfo {
        name: name.to_string(),
        version: "unknown".to_string(),
        arch: "x86_64".to_string(),
        family,
    };
    FeatureInstaller::new(InstallerConfig::default(), os, "/home/runner").unwrap()
}

#[test]
fn test_unknown_feature() {
    let requested = vec!["unknown-feature".to_string()];
    let step = installer(OsFamily::Linux, "ubuntu").install_features(&requested, &Vec::new());
    match step {
        Step::Done(report) => {
            assert!(report.result.is_err());
            let message = report.result.unwrap_err().message();
            assert!(message.contains("Unknown feature: unknown-feature"));
        }
        Step::Perform(action) => panic!("asked for {:?}", action),
    }
}

#[test]
fn test_valid_feature_names() {
    let requested = vec!["nodejs".to_string()];
    let step = installer(OsFamily::Linux, "ubuntu").install_features(&requested, &Vec::new());
    match step {
        Step::Done(report) => {
            let message = report.result.err().map(|e| e.message()).unwrap_or_default();
            assert!(!message.contains("Unknown feature: nodejs"));
        }
        Step::Perform(_) => {}
    }
}

#[test]
fn test_unix_specific_features() {
    let unix = [
        (OsFamily::Linux, "ubuntu"),
        (OsFamily::Linux, "debian"),
        (OsFamily::Linux, "centos"),
        (OsFamily::Linux, "rhel"),
        (OsFamily::Linux, "fedora"),
        (OsFamily::Linux, "alpine"),
        (OsFamily::Linux, "linux"),
        (OsFamily::MacOs, "macos"),
    ];
    for (family, name) in unix {
        let line = format!(
            "Using package manager: {}",
            installer(family, name).package_manager().name()
        );
        let has_package_manager = line.contains("Using package manager: apt")
            || line.contains("Using package manager: yum")
            || line.contains("Using package manager: apk")
            || line.contains("Using package manager: homebrew");
        assert!(has_package_manager, "Should detect a Unix package manager");
    }
}
