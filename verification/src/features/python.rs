//! Python: the interpreter together with pip and venv.

use vstd::prelude::*;
use crate::error::{ErrorModel, InstallError, Verdict};
use crate::features::{Feature, lemma_version_check_settles, version_check, version_check_model};
use crate::host::{Action, ActionModel, Command, CommandModel, Outcome, OutcomeModel};
use crate::os::{OsFamily, OsInfo, OsModel};
use crate::package_managers::{BackendKind, install_command, PackageManager, update_command};
use crate::progress::{
    and_then, best_effort, best_effort_model, carry_out, continues, launch, launch_model,
    lemma_single_steps_settle, Progress, ProgressModel, run_all, settled, VerdictProgress,
};
use crate::text::text_eq;

verus! {

/// The command that prints the version of the interpreter.
pub open spec fn python_version_command() -> CommandModel {
    CommandModel { program: "python3"@, args: seq!["--version"@] }
}

/// The command that prints the version of pip.
pub open spec fn pip_version_command() -> CommandModel {
    CommandModel { program: "pip3"@, args: seq!["--version"@] }
}

/// The command that tells whether virtual environments can be created.
pub open spec fn venv_help_command() -> CommandModel {
    CommandModel { program: "python3"@, args: seq!["-m"@, "venv"@, "--help"@] }
}

/// The command that brings pip up to date.
pub open spec fn pip_upgrade_command() -> CommandModel {
    CommandModel {
        program: "python3"@,
        args: seq!["-m"@, "pip"@, "install"@, "--upgrade"@, "pip"@],
    }
}

/// Probing for Python: the interpreter and pip are both asked for their version, and
/// both must answer.
pub open spec fn python_probe(log: Seq<OutcomeModel>, at: int) -> ProgressModel<bool> {
    if at >= log.len() {
        ProgressModel::Pending(ActionModel::Run(python_version_command()))
    } else if at + 1 >= log.len() {
        ProgressModel::Pending(ActionModel::Run(pip_version_command()))
    } else {
        ProgressModel::Finished(log[at].succeeded() && log[at + 1].succeeded(), at + 2)
    }
}

/// The packages that make up Python on a platform, each installed through the
/// backend, after a refresh of the package lists on the Debian family. A Linux
/// distribution that is not recognised gets the two most common package names.
pub open spec fn python_plan(os: OsModel, backend: BackendKind) -> Result<
    Seq<CommandModel>,
    ErrorModel,
> {
    match os.family {
        OsFamily::Linux => if os.name == "ubuntu"@ || os.name == "debian"@ {
            Ok(
                seq![
                    update_command(backend),
                    install_command(backend, "python3"@),
                    install_command(backend, "python3-pip"@),
                    install_command(backend, "python3-venv"@),
                    install_command(backend, "python3-dev"@),
                ],
            )
        } else if os.name == "alpine"@ {
            Ok(
                seq![
                    install_command(backend, "python3"@),
                    install_command(backend, "py3-pip"@),
                    install_command(backend, "python3-dev"@),
                ],
            )
        } else if os.name == "centos"@ || os.name == "rhel"@ || os.name == "fedora"@ {
            Ok(
                seq![
                    install_command(backend, "python3"@),
                    install_command(backend, "python3-pip"@),
                    install_command(backend, "python3-devel"@),
                ],
            )
        } else {
            Ok(seq![install_command(backend, "python3"@), install_command(backend, "python3-pip"@)])
        },
        OsFamily::Windows => Ok(seq![install_command(backend, "python"@)]),
        OsFamily::MacOs => Ok(seq![install_command(backend, "python@3.11"@)]),
        OsFamily::Unknown => Err(ErrorModel::UnsupportedPlatform),
    }
}

/// The checks of a verification: the interpreter must print its version; pip and the
/// venv module are auxiliary checks.
pub open spec fn python_checks(log: Seq<OutcomeModel>, at: int) -> VerdictProgress {
    and_then(
        version_check_model("python"@, python_version_command(), log, at),
        |k: int|
            and_then(
                best_effort_model(pip_version_command(), "pip is not available"@, log, k),
                |j: int|
                    best_effort_model(
                        venv_help_command(),
                        "Virtual environment support is not available"@,
                        log,
                        j,
                    ),
            ),
    )
}

/// The checks of a verification, once finished, stay finished in the same way however
/// the log goes on.
pub proof fn lemma_python_checks_settle(log: Seq<OutcomeModel>, longer: Seq<OutcomeModel>, at: int)
    requires
        continues(longer, log),
        0 <= at <= log.len(),
    ensures
        settled(python_checks(log, at), python_checks(longer, at), at, log.len() as int),
{
    lemma_version_check_settles("python"@, python_version_command(), log, longer, at);
    match version_check_model("python"@, python_version_command(), log, at) {
        ProgressModel::Finished(Ok(_), k) => {
            lemma_single_steps_settle(
                pip_version_command(),
                ActionModel::Run(pip_version_command()),
                "pip is not available"@,
                log,
                longer,
                k,
            );
            match best_effort_model(pip_version_command(), "pip is not available"@, log, k) {
                ProgressModel::Finished(Ok(_), j) => {
                    lemma_single_steps_settle(
                        venv_help_command(),
                        ActionModel::Run(venv_help_command()),
                        "Virtual environment support is not available"@,
                        log,
                        longer,
                        j,
                    );
                },
                _ => {},
            }
        },
        _ => {},
    }
}

/// Python, parameterized by the platform it is installed on.
#[derive(Debug, Clone, PartialEq, Eq)]
pub struct Python {
    os_info: OsInfo,
}

impl Python {
    pub fn new(os_info: OsInfo) -> (feature: Self)
        ensures
            feature.os() == os_info@,
    {
        Python { os_info }
    }

    /// The platform the feature was made for.
    pub closed spec fn os(&self) -> OsModel {
        self.os_info@
    }

    /// The commands that install Python on this platform through `package_manager`.
    pub fn plan<P: PackageManager>(&self, package_manager: &P) -> (plan: Result<
        Vec<Command>,
        InstallError,
    >)
        ensures
            match python_plan(self.os(), package_manager.kind()) {
                Ok(cmds) => plan is Ok && plan->Ok_0.deep_view() == cmds,
                Err(e) => plan is Err && plan->Err_0@ == e,
            },
    {
        let name = self.os_info.name.as_str();
        let ghost want = python_plan(self.os(), package_manager.kind());
        let mut cmds: Vec<Command> = Vec::new();
        match self.os_info.family {
            OsFamily::Linux => {
                if text_eq(name, "ubuntu") || text_eq(name, "debian") {
                    cmds.push(package_manager.update_command());
                    cmds.push(package_manager.install_command("python3"));
                    cmds.push(package_manager.install_command("python3-pip"));
                    cmds.push(package_manager.install_command("python3-venv"));
                    cmds.push(package_manager.install_command("python3-dev"));
                } else if text_eq(name, "alpine") {
                    cmds.push(package_manager.install_command("python3"));
                    cmds.push(package_manager.install_command("py3-pip"));
                    cmds.push(package_manager.install_command("python3-dev"));
                } else if text_eq(name, "centos") || text_eq(name, "rhel") || text_eq(
                    name,
                    "fedora",
                ) {
                    cmds.push(package_manager.install_command("python3"));
                    cmds.push(package_manager.install_command("python3-pip"));
                    cmds.push(package_manager.install_command("python3-devel"));
                } else {
                    cmds.push(package_manager.install_command("python3"));
                    cmds.push(package_manager.install_command("python3-pip"));
                }
            },
            OsFamily::Windows => {
                cmds.push(package_manager.install_command("python"));
            },
            OsFamily::MacOs => {
                cmds.push(package_manager.install_command("python@3.11"));
            },
            OsFamily::Unknown => {
                return Err(InstallError::UnsupportedPlatform);
            },
        }
        assert(cmds.deep_view() =~= want->Ok_0);
        Ok(cmds)
    }

    /// Brings pip up to date. The command must start; that it exits with an error is
    /// no failure, since pip may already be the latest.
    pub fn upgrade_pip(&self, log: &Vec<Outcome>, at: usize) -> (r: Progress<Verdict>)
        ensures
            r@ == launch_model(pip_upgrade_command(), log.deep_view(), at as int),
    {
        let cmd = Command::new("python3", &["-m", "pip", "install", "--upgrade", "pip"]);
        assert(cmd@.args =~= seq!["-m"@, "pip"@, "install"@, "--upgrade"@, "pip"@]);
        launch(cmd, log, at)
    }
}

impl Feature for Python {
    open spec fn label(&self) -> Seq<char> {
        "python"@
    }

    open spec fn summary(&self) -> Seq<char> {
        "Python programming language with pip and venv"@
    }

    open spec fn probe_model(&self, log: Seq<OutcomeModel>, at: int) -> ProgressModel<bool> {
        python_probe(log, at)
    }

    open spec fn strategy_model(&self, backend: BackendKind, log: Seq<OutcomeModel>, at: int)
        -> VerdictProgress {
        and_then(
            carry_out(python_plan(self.os(), backend), log, at),
            |k: int| launch_model(pip_upgrade_command(), log, k),
        )
    }

    open spec fn checks_model(&self, log: Seq<OutcomeModel>, at: int) -> VerdictProgress {
        python_checks(log, at)
    }

    fn name(&self) -> (name: &'static str) {
        "python"
    }

    fn description(&self) -> (text: &'static str) {
        "Python programming language with pip and venv"
    }

    fn is_installed(&self, log: &Vec<Outcome>, at: usize) -> (r: Progress<bool>) {
        if at >= log.len() {
            let cmd = Command::new("python3", &["--version"]);
            assert(cmd@.args =~= seq!["--version"@]);
            return Progress::Pending(Action::Run(cmd));
        }
        if at + 1 >= log.len() {
            let cmd = Command::new("pip3", &["--version"]);
            assert(cmd@.args =~= seq!["--version"@]);
            return Progress::Pending(Action::Run(cmd));
        }
        let python3_check = log[at].succeeded();
        let pip_check = log[at + 1].succeeded();
        Progress::Finished(python3_check && pip_check, at + 2)
    }

    fn install<P: PackageManager>(&self, package_manager: &P, log: &Vec<Outcome>, at: usize) -> (r:
        Progress<Verdict>) {
        let at = match self.is_installed(log, at) {
            Progress::Pending(action) => {
                return Progress::Pending(action);
            },
            Progress::Finished(present, k) => {
                if present {
                    return Progress::Finished(Ok(()), k);
                }
                k
            },
        };
        let installed = match self.plan(package_manager) {
            Ok(cmds) => run_all(&cmds, log, at),
            Err(e) => Progress::Finished(Err(e), at),
        };
        match installed {
            Progress::Finished(Ok(_), k) => self.upgrade_pip(log, k),
            other => other,
        }
    }

    fn verify(&self, log: &Vec<Outcome>, at: usize) -> (r: Progress<Verdict>) {
        let at = match self.is_installed(log, at) {
            Progress::Pending(action) => {
                return Progress::Pending(action);
            },
            Progress::Finished(present, k) => {
                if !present {
                    return Progress::Finished(
                        Err(
                            InstallError::VerificationFailed {
                                feature: String::from_str("python"),
                            },
                        ),
                        k,
                    );
                }
                k
            },
        };
        let python = Command::new("python3", &["--version"]);
        assert(python@.args =~= seq!["--version"@]);
        let at = match version_check("python", python, log, at) {
            Progress::Finished(Ok(_), k) => k,
            other => {
                return other;
            },
        };
        let pip = Command::new("pip3", &["--version"]);
        assert(pip@.args =~= seq!["--version"@]);
        let at = match best_effort(pip, "pip is not available", log, at) {
            Progress::Finished(Ok(_), k) => k,
            other => {
                return other;
            },
        };
        let venv = Command::new("python3", &["-m", "venv", "--help"]);
        assert(venv@.args =~= seq!["-m"@, "venv"@, "--help"@]);
        best_effort(venv, "Virtual environment support is not available", log, at)
    }
}

} // verus!
