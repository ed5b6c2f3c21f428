//! Node.js: the JavaScript runtime.

use vstd::prelude::*;
use crate::error::{ErrorModel, InstallError, Verdict};
use crate::features::{Feature, lemma_version_check_settles, version_check, version_check_model};
use crate::host::{Action, ActionModel, Command, CommandModel, Outcome, OutcomeModel};
use crate::os::{OsFamily, OsInfo, OsModel};
use crate::package_managers::{BackendKind, install_command, PackageManager, sudo_bash, sudo_shell};
use crate::progress::{
    and_then, attempt, attempt_model, best_effort, best_effort_model, carry_out, continues,
    lemma_single_steps_settle, Progress, ProgressModel, run_all, settled, VerdictProgress,
};
use crate::text::text_eq;

verus! {

/// The command that prints the version of the runtime.
pub open spec fn node_version_command() -> CommandModel {
    CommandModel { program: "node"@, args: seq!["--version"@] }
}

/// The command that prints the version of the package tool that comes with the runtime.
pub open spec fn npm_version_command() -> CommandModel {
    CommandModel { program: "npm"@, args: seq!["--version"@] }
}

/// The name that release archives use for an architecture, where one is published.
pub open spec fn node_arch(arch: Seq<char>) -> Option<Seq<char>> {
    if arch == "x86_64"@ {
        Some("x64"@)
    } else if arch == "aarch64"@ {
        Some("arm64"@)
    } else if arch == "armv7l"@ {
        Some("armv7l"@)
    } else {
        None
    }
}

/// The pipeline that unpacks the release archive for `arch` under `/usr/local`.
pub open spec fn node_binary_script(arch: Seq<char>) -> Seq<char> {
    "curl -fsSL https://nodejs.org/dist/v18.20.8/node-v18.20.8-linux-"@ + arch
        + ".tar.xz | sudo tar -xJ -C /usr/local --strip-components=1"@
}

/// The commands of the standalone install, or the reason none exist.
pub open spec fn node_binary_plan(arch: Seq<char>) -> Result<Seq<CommandModel>, ErrorModel> {
    match node_arch(arch) {
        Some(name) => Ok(seq![sudo_shell(node_binary_script(name))]),
        None => Err(ErrorModel::UnsupportedPlatform),
    }
}

/// The commands that install the runtime on a platform, each of which must succeed, or
/// the reason none exist.
///
/// Debian and Red Hat families register the vendor's package repository and install
/// from it; Alpine, Windows and macOS install the backend's own package; any other
/// Linux distribution unpacks the release archive.
pub open spec fn node_plan(os: OsModel, backend: BackendKind) -> Result<
    Seq<CommandModel>,
    ErrorModel,
> {
    match os.family {
        OsFamily::Linux => if os.name == "ubuntu"@ || os.name == "debian"@ {
            Ok(
                seq![
                    CommandModel {
                        program: "curl"@,
                        args: seq!["-fsSL"@, "https://deb.nodesource.com/setup_18.x"@],
                    },
                    sudo_shell(
                        "curl -fsSL https://deb.nodesource.com/setup_18.x | sudo -E bash -"@,
                    ),
                    install_command(backend, "nodejs"@),
                ],
            )
        } else if os.name == "alpine"@ {
            Ok(seq![install_command(backend, "nodejs"@), install_command(backend, "npm"@)])
        } else if os.name == "centos"@ || os.name == "rhel"@ || os.name == "fedora"@ {
            Ok(
                seq![
                    sudo_shell("curl -fsSL https://rpm.nodesource.com/setup_18.x | sudo bash -"@),
                    install_command(backend, "nodejs"@),
                ],
            )
        } else {
            node_binary_plan(os.arch)
        },
        OsFamily::Windows => Ok(seq![install_command(backend, "nodejs"@)]),
        OsFamily::MacOs => Ok(seq![install_command(backend, "node"@)]),
        OsFamily::Unknown => Err(ErrorModel::UnsupportedPlatform),
    }
}

/// The checks of a verification: the runtime must print its version; the package tool
/// that comes with it is the smoke test.
pub open spec fn node_checks(log: Seq<OutcomeModel>, at: int) -> VerdictProgress {
    and_then(
        version_check_model("nodejs"@, node_version_command(), log, at),
        |k: int| best_effort_model(npm_version_command(), "npm is not available"@, log, k),
    )
}

/// The checks of a verification, once finished, stay finished in the same way however
/// the log goes on.
pub proof fn lemma_node_checks_settle(log: Seq<OutcomeModel>, longer: Seq<OutcomeModel>, at: int)
    requires
        continues(longer, log),
        0 <= at <= log.len(),
    ensures
        settled(node_checks(log, at), node_checks(longer, at), at, log.len() as int),
{
    lemma_version_check_settles("nodejs"@, node_version_command(), log, longer, at);
    match version_check_model("nodejs"@, node_version_command(), log, at) {
        ProgressModel::Finished(Ok(_), k) => {
            lemma_single_steps_settle(
                npm_version_command(),
                ActionModel::Run(npm_version_command()),
                "npm is not available"@,
                log,
                longer,
                k,
            );
        },
        _ => {},
    }
}

/// Node.js, parameterized by the platform it is installed on.
#[derive(Debug, Clone, PartialEq, Eq)]
pub struct NodeJs {
    os_info: OsInfo,
}

impl NodeJs {
    pub fn new(os_info: OsInfo) -> (feature: Self)
        ensures
            feature.os() == os_info@,
    {
        NodeJs { os_info }
    }

    /// The platform the feature was made for.
    pub closed spec fn os(&self) -> OsModel {
        self.os_info@
    }

    /// The commands of the standalone install: the release archive for the host's
    /// architecture, unpacked under `/usr/local`.
    pub fn install_binary(&self) -> (plan: Result<Vec<Command>, InstallError>)
        ensures
            match node_binary_plan(self.os().arch) {
                Ok(cmds) => plan is Ok && plan->Ok_0.deep_view() == cmds,
                Err(e) => plan is Err && plan->Err_0@ == e,
            },
    {
        let arch = self.os_info.arch.as_str();
        let name = if text_eq(arch, "x86_64") {
            "x64"
        } else if text_eq(arch, "aarch64") {
            "arm64"
        } else if text_eq(arch, "armv7l") {
            "armv7l"
        } else {
            return Err(InstallError::UnsupportedPlatform);
        };
        let script = String::from_str(
            "curl -fsSL https://nodejs.org/dist/v18.20.8/node-v18.20.8-linux-",
        ).concat(name).concat(".tar.xz | sudo tar -xJ -C /usr/local --strip-components=1");
        let mut cmds: Vec<Command> = Vec::new();
        cmds.push(sudo_bash(script.as_str()));
        assert(cmds.deep_view() =~= seq![sudo_shell(script@)]);
        Ok(cmds)
    }

    /// The commands that install the runtime on this platform through `package_manager`.
    pub fn plan<P: PackageManager>(&self, package_manager: &P) -> (plan: Result<
        Vec<Command>,
        InstallError,
    >)
        ensures
            match node_plan(self.os(), package_manager.kind()) {
                Ok(cmds) => plan is Ok && plan->Ok_0.deep_view() == cmds,
                Err(e) => plan is Err && plan->Err_0@ == e,
            },
    {
        let name = self.os_info.name.as_str();
        let mut cmds: Vec<Command> = Vec::new();
        match self.os_info.family {
            OsFamily::Linux => {
                if text_eq(name, "ubuntu") || text_eq(name, "debian") {
                    let fetch = Command::new(
                        "curl",
                        &["-fsSL", "https://deb.nodesource.com/setup_18.x"],
                    );
                    assert(fetch@.args =~= seq![
                        "-fsSL"@,
                        "https://deb.nodesource.com/setup_18.x"@,
                    ]);
                    cmds.push(fetch);
                    cmds.push(
                        sudo_bash(
                            "curl -fsSL https://deb.nodesource.com/setup_18.x | sudo -E bash -",
                        ),
                    );
                    cmds.push(package_manager.install_command("nodejs"));
                    assert(cmds.deep_view() =~= node_plan(
                        self.os(),
                        package_manager.kind(),
                    )->Ok_0);
                } else if text_eq(name, "alpine") {
                    cmds.push(package_manager.install_command("nodejs"));
                    cmds.push(package_manager.install_command("npm"));
                    assert(cmds.deep_view() =~= node_plan(
                        self.os(),
                        package_manager.kind(),
                    )->Ok_0);
                } else if text_eq(name, "centos") || text_eq(name, "rhel") || text_eq(
                    name,
                    "fedora",
                ) {
                    cmds.push(
                        sudo_bash("curl -fsSL https://rpm.nodesource.com/setup_18.x | sudo bash -"),
                    );
                    cmds.push(package_manager.install_command("nodejs"));
                    assert(cmds.deep_view() =~= node_plan(
                        self.os(),
                        package_manager.kind(),
                    )->Ok_0);
                } else {
                    return self.install_binary();
                }
            },
            OsFamily::Windows => {
                cmds.push(package_manager.install_command("nodejs"));
                assert(cmds.deep_view() =~= node_plan(self.os(), package_manager.kind())->Ok_0);
            },
            OsFamily::MacOs => {
                cmds.push(package_manager.install_command("node"));
                assert(cmds.deep_view() =~= node_plan(self.os(), package_manager.kind())->Ok_0);
            },
            OsFamily::Unknown => {
                return Err(InstallError::UnsupportedPlatform);
            },
        }
        Ok(cmds)
    }
}

impl Feature for NodeJs {
    open spec fn label(&self) -> Seq<char> {
        "nodejs"@
    }

    open spec fn summary(&self) -> Seq<char> {
        "Node.js JavaScript runtime environment"@
    }

    open spec fn probe_model(&self, log: Seq<OutcomeModel>, at: int) -> ProgressModel<bool> {
        attempt_model(ActionModel::Run(node_version_command()), log, at)
    }

    open spec fn strategy_model(&self, backend: BackendKind, log: Seq<OutcomeModel>, at: int)
        -> VerdictProgress {
        carry_out(node_plan(self.os(), backend), log, at)
    }

    open spec fn checks_model(&self, log: Seq<OutcomeModel>, at: int) -> VerdictProgress {
        node_checks(log, at)
    }

    fn name(&self) -> (name: &'static str) {
        "nodejs"
    }

    fn description(&self) -> (text: &'static str) {
        "Node.js JavaScript runtime environment"
    }

    fn is_installed(&self, log: &Vec<Outcome>, at: usize) -> (r: Progress<bool>) {
        let cmd = Command::new("node", &["--version"]);
        assert(cmd@.args =~= seq!["--version"@]);
        attempt(Action::Run(cmd), log, at)
    }

    fn install<P: PackageManager>(&self, package_manager: &P, log: &Vec<Outcome>, at: usize) -> (r:
        Progress<Verdict>) {
        let at = match self.is_installed(log, at) {
            Progress::Pending(action) => {
                return Progress::Pending(action);
            },
            Progress::Finished(present, k) => {
                if present {
                    return Progress::Finished(Ok(()), k);
                }
                k
            },
        };
        match self.plan(package_manager) {
            Ok(cmds) => run_all(&cmds, log, at),
            Err(e) => Progress::Finished(Err(e), at),
        }
    }

    fn verify(&self, log: &Vec<Outcome>, at: usize) -> (r: Progress<Verdict>) {
        let at = match self.is_installed(log, at) {
            Progress::Pending(action) => {
                return Progress::Pending(action);
            },
            Progress::Finished(present, k) => {
                if !present {
                    return Progress::Finished(
                        Err(
                            InstallError::VerificationFailed {
                                feature: String::from_str("nodejs"),
                            },
                        ),
                        k,
                    );
                }
                k
            },
        };
        let node = Command::new("node", &["--version"]);
        assert(node@.args =~= seq!["--version"@]);
        let at = match version_check("nodejs", node, log, at) {
            Progress::Finished(Ok(_), k) => k,
            other => {
                return other;
            },
        };
        let npm = Command::new("npm", &["--version"]);
        assert(npm@.args =~= seq!["--version"@]);
        best_effort(npm, "npm is not available", log, at)
    }
}

} // verus!
