//! Installable features and what they have in common.
//!
//! A feature is probed, installed when the probe finds it absent, and verified. Its
//! install dispatches on the platform and may fall back through several strategies.

use vstd::prelude::*;
use crate::error::{ErrorModel, InstallError, Verdict};
use crate::features::docker::{Docker, docker_strategy, docker_version_command};
use crate::features::nodejs::{node_plan, node_version_command, NodeJs};
use crate::features::python::{pip_upgrade_command, Python, python_plan, python_probe};
use crate::features::uv::{Uv, uv_checks, uv_probe_commands, uv_strategy};
use crate::host::{Action, ActionModel, Command, CommandModel, LogLevel, Outcome, OutcomeModel};
use crate::os::{OsInfo, OsModel};
use crate::package_managers::{BackendKind, PackageManager};
use crate::progress::{
    and_then, any_succeeds_model, attempt_model, carry_out, continues, ends_within, launch_model,
    lemma_any_succeeds_ends, lemma_any_succeeds_settles, lemma_run_all_ends, lemma_run_all_settles,
    lemma_single_steps_settle, Progress, ProgressModel, run_all_model, settled, VerdictProgress,
};
use crate::text::{text_eq, Trim, trim, trimmed};

pub mod docker;
pub mod nodejs;
pub mod python;
pub mod uv;

verus! {

/// Installing behind a probe: nothing is done for a feature that is present.
pub open spec fn guarded(probe: ProgressModel<bool>, strategy: spec_fn(int) -> VerdictProgress)
    -> VerdictProgress {
    match probe {
        ProgressModel::Pending(action) => ProgressModel::Pending(action),
        ProgressModel::Finished(present, k) => if present {
            ProgressModel::Finished(Ok(()), k)
        } else {
            strategy(k)
        },
    }
}

/// Verifying behind a probe: a feature that is absent fails verification at once.
pub open spec fn verified(
    feature: Seq<char>,
    probe: ProgressModel<bool>,
    checks: spec_fn(int) -> VerdictProgress,
) -> VerdictProgress {
    match probe {
        ProgressModel::Pending(action) => ProgressModel::Pending(action),
        ProgressModel::Finished(present, k) => if present {
            checks(k)
        } else {
            ProgressModel::Finished(Err(ErrorModel::VerificationFailed { feature }), k)
        },
    }
}

/// The message that reports the version a feature printed.
pub open spec fn version_report(feature: Seq<char>, stdout: Seq<char>) -> Seq<char> {
    feature + " installed successfully: "@ + trimmed(stdout, Trim::Whitespace)
}

/// The primary check of a verification: the version command must succeed, and what it
/// printed is reported.
pub open spec fn version_check_model(
    feature: Seq<char>,
    cmd: CommandModel,
    log: Seq<OutcomeModel>,
    at: int,
) -> VerdictProgress {
    if at >= log.len() {
        ProgressModel::Pending(ActionModel::Run(cmd))
    } else if !log[at].succeeded() {
        ProgressModel::Finished(Err(ErrorModel::VerificationFailed { feature }), at + 1)
    } else if at + 1 >= log.len() {
        ProgressModel::Pending(
            ActionModel::Log {
                level: LogLevel::Info,
                message: version_report(feature, log[at].stdout()),
            },
        )
    } else {
        ProgressModel::Finished(Ok(()), at + 2)
    }
}

/// A version check that has finished stays finished, in the same way, however the log
/// goes on.
pub proof fn lemma_version_check_settles(
    feature: Seq<char>,
    cmd: CommandModel,
    log: Seq<OutcomeModel>,
    longer: Seq<OutcomeModel>,
    at: int,
)
    requires
        continues(longer, log),
        0 <= at <= log.len(),
    ensures
        settled(
            version_check_model(feature, cmd, log, at),
            version_check_model(feature, cmd, longer, at),
            at,
            log.len() as int,
        ),
{
    if at < log.len() {
        assert(longer[at] == log[at]);
    }
}

/// Runs the version command of a feature and reports what it printed.
pub fn version_check(feature: &str, cmd: Command, log: &Vec<Outcome>, at: usize) -> (r: Progress<
    Verdict,
>)
    ensures
        r@ == version_check_model(feature@, cmd@, log.deep_view(), at as int),
{
    if at >= log.len() {
        return Progress::Pending(Action::Run(cmd));
    }
    let outcome = &log[at];
    if !outcome.succeeded() {
        return Progress::Finished(
            Err(InstallError::VerificationFailed { feature: String::from_str(feature) }),
            at + 1,
        );
    }
    if at + 1 >= log.len() {
        let version = trim(outcome.stdout(), Trim::Whitespace);
        let message = String::from_str(feature).concat(" installed successfully: ").concat(
            version,
        );
        return Progress::Pending(Action::Log { level: LogLevel::Info, message });
    }
    Progress::Finished(Ok(()), at + 2)
}

/// The capabilities of an installable feature.
pub trait Feature {
    /// The name the feature is requested by.
    spec fn label(&self) -> Seq<char>;

    /// One line that says what the feature is.
    spec fn summary(&self) -> Seq<char>;

    /// What probing for the feature asks of the host and concludes from the answers.
    spec fn probe_model(&self, log: Seq<OutcomeModel>, at: int) -> ProgressModel<bool>;

    /// How the feature is installed once the probe has found it absent.
    spec fn strategy_model(&self, backend: BackendKind, log: Seq<OutcomeModel>, at: int)
        -> VerdictProgress;

    /// What verification checks once the probe has found the feature present.
    spec fn checks_model(&self, log: Seq<OutcomeModel>, at: int) -> VerdictProgress;

    /// The name the feature is requested by.
    fn name(&self) -> (name: &'static str)
        ensures
            name@ == self.label(),
    ;

    /// One line that says what the feature is.
    fn description(&self) -> (text: &'static str)
        ensures
            text@ == self.summary(),
    ;

    /// Probes whether the feature is present on the host.
    fn is_installed(&self, log: &Vec<Outcome>, at: usize) -> (r: Progress<bool>)
        ensures
            r@ == self.probe_model(log.deep_view(), at as int),
    ;

    /// Installs the feature, unless the probe finds it present: then nothing beyond
    /// the probe is asked of the host and the install succeeds.
    fn install<P: PackageManager>(&self, package_manager: &P, log: &Vec<Outcome>, at: usize) -> (r:
        Progress<Verdict>)
        ensures
            r@ == guarded(
                self.probe_model(log.deep_view(), at as int),
                |k: int| self.strategy_model(package_manager.kind(), log.deep_view(), k),
            ),
    ;

    /// Verifies the feature: probes again, then runs its checks. Absence fails the
    /// verification.
    fn verify(&self, log: &Vec<Outcome>, at: usize) -> (r: Progress<Verdict>)
        ensures
            r@ == verified(
                self.label(),
                self.probe_model(log.deep_view(), at as int),
                |k: int| self.checks_model(log.deep_view(), k),
            ),
    ;
}

/// Identity of a feature.
#[derive(Debug, Clone, Copy, PartialEq, Eq, Structural)]
pub enum FeatureKind {
    NodeJs,
    Python,
    Docker,
    Uv,
}

/// The feature that a name stands for, if any.
pub open spec fn lookup(name: Seq<char>) -> Option<FeatureKind> {
    if name == "nodejs"@ {
        Some(FeatureKind::NodeJs)
    } else if name == "python"@ {
        Some(FeatureKind::Python)
    } else if name == "docker"@ {
        Some(FeatureKind::Docker)
    } else if name == "uv"@ {
        Some(FeatureKind::Uv)
    } else {
        None
    }
}

/// Any one of the features, as the registry hands it out.
#[derive(Debug, Clone, PartialEq, Eq)]
pub enum AnyFeature {
    NodeJs(NodeJs),
    Python(Python),
    Docker(Docker),
    Uv(Uv),
}

impl AnyFeature {
    /// Which feature this is.
    pub open spec fn kind(&self) -> FeatureKind {
        match self {
            AnyFeature::NodeJs(_) => FeatureKind::NodeJs,
            AnyFeature::Python(_) => FeatureKind::Python,
            AnyFeature::Docker(_) => FeatureKind::Docker,
            AnyFeature::Uv(_) => FeatureKind::Uv,
        }
    }

    /// Whether the feature was made for the platform `os` and the home directory `home`.
    pub open spec fn made_for(&self, os: OsModel, home: Seq<char>) -> bool {
        match self {
            AnyFeature::NodeJs(f) => f.os() == os,
            AnyFeature::Python(f) => f.os() == os,
            AnyFeature::Docker(f) => f.os() == os,
            AnyFeature::Uv(f) => f.os() == os && f.home() == home,
        }
    }
}

/// The name a feature is requested by.
pub open spec fn feature_label(kind: FeatureKind) -> Seq<char> {
    match kind {
        FeatureKind::NodeJs => "nodejs"@,
        FeatureKind::Python => "python"@,
        FeatureKind::Docker => "docker"@,
        FeatureKind::Uv => "uv"@,
    }
}

/// What probing for a feature asks of the host and concludes from the answers.
pub open spec fn probe_of(kind: FeatureKind, home: Seq<char>, log: Seq<OutcomeModel>, at: int)
    -> ProgressModel<bool> {
    match kind {
        FeatureKind::NodeJs => attempt_model(ActionModel::Run(node_version_command()), log, at),
        FeatureKind::Python => python_probe(log, at),
        FeatureKind::Docker => attempt_model(
            ActionModel::Run(docker_version_command()),
            log,
            at,
        ),
        FeatureKind::Uv => any_succeeds_model(uv_probe_commands(home), log, at),
    }
}

/// Installing a feature on the platform `os` through `backend`: nothing beyond the
/// probe for a feature that is present, and its platform's strategy otherwise.
pub open spec fn install_of(
    kind: FeatureKind,
    os: OsModel,
    home: Seq<char>,
    backend: BackendKind,
    log: Seq<OutcomeModel>,
    at: int,
) -> VerdictProgress {
    guarded(
        probe_of(kind, home, log, at),
        |k: int|
            match kind {
                FeatureKind::NodeJs => carry_out(node_plan(os, backend), log, k),
                FeatureKind::Python => and_then(
                    carry_out(python_plan(os, backend), log, k),
                    |j: int| launch_model(pip_upgrade_command(), log, j),
                ),
                FeatureKind::Docker => docker_strategy(os, backend, log, k),
                FeatureKind::Uv => uv_strategy(os, home, backend, log, k),
            },
    )
}

/// Verifying a feature: absence fails at once, presence leads to the feature's checks.
pub open spec fn verify_of(kind: FeatureKind, home: Seq<char>, log: Seq<OutcomeModel>, at: int)
    -> VerdictProgress {
    verified(
        feature_label(kind),
        probe_of(kind, home, log, at),
        |k: int|
            match kind {
                FeatureKind::NodeJs => nodejs::node_checks(log, k),
                FeatureKind::Python => python::python_checks(log, k),
                FeatureKind::Docker => docker::docker_checks(log, k),
                FeatureKind::Uv => uv_checks(home, log, k),
            },
    )
}

/// Every procedure of a feature ends: a probe within four outcomes, an install within
/// eighteen and a verification within eleven, whatever the feature and the platform.
pub proof fn lemma_feature_ends(
    kind: FeatureKind,
    os: OsModel,
    home: Seq<char>,
    backend: BackendKind,
    log: Seq<OutcomeModel>,
    at: int,
)
    ensures
        ends_within(probe_of(kind, home, log, at), at, 4, log.len() as int),
        ends_within(install_of(kind, os, home, backend, log, at), at, 18, log.len() as int),
        ends_within(verify_of(kind, home, log, at), at, 11, log.len() as int),
{
    lemma_any_succeeds_ends(uv_probe_commands(home), log, at);
    match probe_of(kind, home, log, at) {
        ProgressModel::Finished(_, k) => {
            match node_plan(os, backend) {
                Ok(cmds) => {
                    lemma_run_all_ends(cmds, log, k);
                },
                Err(_) => {},
            }
            match python_plan(os, backend) {
                Ok(cmds) => {
                    lemma_run_all_ends(cmds, log, k);
                },
                Err(_) => {},
            }
            docker::lemma_docker_ends(os, backend, log, k);
            uv::lemma_uv_ends(os, home, backend, log, k);
        },
        _ => {},
    }
}

/// A probe that has finished stays finished, with the same answer, however the log
/// goes on.
pub proof fn lemma_probe_settles(
    kind: FeatureKind,
    home: Seq<char>,
    log: Seq<OutcomeModel>,
    longer: Seq<OutcomeModel>,
    at: int,
)
    requires
        continues(longer, log),
        0 <= at <= log.len(),
    ensures
        settled(
            probe_of(kind, home, log, at),
            probe_of(kind, home, longer, at),
            at,
            log.len() as int,
        ),
{
    lemma_any_succeeds_settles(uv_probe_commands(home), log, longer, at);
    if at < log.len() {
        assert(longer[at] == log[at]);
        if at + 1 < log.len() {
            assert(longer[at + 1] == log[at + 1]);
        }
    }
}

/// An install that has finished stays finished, in the same way, however the log goes
/// on: a feature never goes back to an earlier step of its install.
pub proof fn lemma_install_settles(
    kind: FeatureKind,
    os: OsModel,
    home: Seq<char>,
    backend: BackendKind,
    log: Seq<OutcomeModel>,
    longer: Seq<OutcomeModel>,
    at: int,
)
    requires
        continues(longer, log),
        0 <= at <= log.len(),
    ensures
        settled(
            install_of(kind, os, home, backend, log, at),
            install_of(kind, os, home, backend, longer, at),
            at,
            log.len() as int,
        ),
{
    lemma_probe_settles(kind, home, log, longer, at);
    match probe_of(kind, home, log, at) {
        ProgressModel::Finished(present, k) => {
            if !present {
                match kind {
                    FeatureKind::NodeJs => {
                        match node_plan(os, backend) {
                            Ok(cmds) => {
                                lemma_run_all_settles(cmds, log, longer, k);
                            },
                            Err(_) => {},
                        }
                    },
                    FeatureKind::Python => {
                        match python_plan(os, backend) {
                            Ok(cmds) => {
                                lemma_run_all_settles(cmds, log, longer, k);
                                match run_all_model(cmds, log, k) {
                                    ProgressModel::Finished(Ok(_), j) => {
                                        lemma_single_steps_settle(
                                            pip_upgrade_command(),
                                            ActionModel::Run(pip_upgrade_command()),
                                            Seq::empty(),
                                            log,
                                            longer,
                                            j,
                                        );
                                    },
                                    _ => {},
                                }
                            },
                            Err(_) => {},
                        }
                    },
                    FeatureKind::Docker => {
                        docker::lemma_docker_strategy_settles(os, backend, log, longer, k);
                    },
                    FeatureKind::Uv => {
                        uv::lemma_uv_strategy_settles(os, home, backend, log, longer, k);
                    },
                }
            }
        },
        _ => {},
    }
}

/// A verification that has finished stays finished, in the same way, however the log
/// goes on.
pub proof fn lemma_verify_settles(
    kind: FeatureKind,
    home: Seq<char>,
    log: Seq<OutcomeModel>,
    longer: Seq<OutcomeModel>,
    at: int,
)
    requires
        continues(longer, log),
        0 <= at <= log.len(),
    ensures
        settled(
            verify_of(kind, home, log, at),
            verify_of(kind, home, longer, at),
            at,
            log.len() as int,
        ),
{
    lemma_probe_settles(kind, home, log, longer, at);
    match probe_of(kind, home, log, at) {
        ProgressModel::Finished(present, k) => {
            if present {
                match kind {
                    FeatureKind::NodeJs => {
                        nodejs::lemma_node_checks_settle(log, longer, k);
                    },
                    FeatureKind::Python => {
                        python::lemma_python_checks_settle(log, longer, k);
                    },
                    FeatureKind::Docker => {
                        docker::lemma_docker_checks_settle(log, longer, k);
                    },
                    FeatureKind::Uv => {
                        uv::lemma_uv_checks_settle(home, log, longer, k);
                    },
                }
            }
        },
        _ => {},
    }
}

/// What a feature's own procedures do is fixed by its kind and by what it was made for.
pub proof fn lemma_feature_follows_its_kind(
    feature: AnyFeature,
    os: OsModel,
    home: Seq<char>,
    backend: BackendKind,
    log: Seq<OutcomeModel>,
    at: int,
)
    requires
        feature.made_for(os, home),
    ensures
        feature.label() == feature_label(feature.kind()),
        feature.probe_model(log, at) == probe_of(feature.kind(), home, log, at),
        guarded(
            feature.probe_model(log, at),
            |k: int| feature.strategy_model(backend, log, k),
        ) == install_of(feature.kind(), os, home, backend, log, at),
        verified(
            feature.label(),
            feature.probe_model(log, at),
            |k: int| feature.checks_model(log, k),
        ) == verify_of(feature.kind(), home, log, at),
{
}

impl Feature for AnyFeature {
    open spec fn label(&self) -> Seq<char> {
        match self {
            AnyFeature::NodeJs(f) => f.label(),
            AnyFeature::Python(f) => f.label(),
            AnyFeature::Docker(f) => f.label(),
            AnyFeature::Uv(f) => f.label(),
        }
    }

    open spec fn summary(&self) -> Seq<char> {
        match self {
            AnyFeature::NodeJs(f) => f.summary(),
            AnyFeature::Python(f) => f.summary(),
            AnyFeature::Docker(f) => f.summary(),
            AnyFeature::Uv(f) => f.summary(),
        }
    }

    open spec fn probe_model(&self, log: Seq<OutcomeModel>, at: int) -> ProgressModel<bool> {
        match self {
            AnyFeature::NodeJs(f) => f.probe_model(log, at),
            AnyFeature::Python(f) => f.probe_model(log, at),
            AnyFeature::Docker(f) => f.probe_model(log, at),
            AnyFeature::Uv(f) => f.probe_model(log, at),
        }
    }

    open spec fn strategy_model(&self, backend: BackendKind, log: Seq<OutcomeModel>, at: int)
        -> VerdictProgress {
        match self {
            AnyFeature::NodeJs(f) => f.strategy_model(backend, log, at),
            AnyFeature::Python(f) => f.strategy_model(backend, log, at),
            AnyFeature::Docker(f) => f.strategy_model(backend, log, at),
            AnyFeature::Uv(f) => f.strategy_model(backend, log, at),
        }
    }

    open spec fn checks_model(&self, log: Seq<OutcomeModel>, at: int) -> VerdictProgress {
        match self {
            AnyFeature::NodeJs(f) => f.checks_model(log, at),
            AnyFeature::Python(f) => f.checks_model(log, at),
            AnyFeature::Docker(f) => f.checks_model(log, at),
            AnyFeature::Uv(f) => f.checks_model(log, at),
        }
    }

    fn name(&self) -> (name: &'static str) {
        match self {
            AnyFeature::NodeJs(f) => f.name(),
            AnyFeature::Python(f) => f.name(),
            AnyFeature::Docker(f) => f.name(),
            AnyFeature::Uv(f) => f.name(),
        }
    }

    fn description(&self) -> (text: &'static str) {
        match self {
            AnyFeature::NodeJs(f) => f.description(),
            AnyFeature::Python(f) => f.description(),
            AnyFeature::Docker(f) => f.description(),
            AnyFeature::Uv(f) => f.description(),
        }
    }

    fn is_installed(&self, log: &Vec<Outcome>, at: usize) -> (r: Progress<bool>) {
        match self {
            AnyFeature::NodeJs(f) => f.is_installed(log, at),
            AnyFeature::Python(f) => f.is_installed(log, at),
            AnyFeature::Docker(f) => f.is_installed(log, at),
            AnyFeature::Uv(f) => f.is_installed(log, at),
        }
    }

    fn install<P: PackageManager>(&self, package_manager: &P, log: &Vec<Outcome>, at: usize) -> (r:
        Progress<Verdict>) {
        match self {
            AnyFeature::NodeJs(f) => f.install(package_manager, log, at),
            AnyFeature::Python(f) => f.install(package_manager, log, at),
            AnyFeature::Docker(f) => f.install(package_manager, log, at),
            AnyFeature::Uv(f) => f.install(package_manager, log, at),
        }
    }

    fn verify(&self, log: &Vec<Outcome>, at: usize) -> (r: Progress<Verdict>) {
        match self {
            AnyFeature::NodeJs(f) => f.verify(log, at),
            AnyFeature::Python(f) => f.verify(log, at),
            AnyFeature::Docker(f) => f.verify(log, at),
            AnyFeature::Uv(f) => f.verify(log, at),
        }
    }
}

/// Resolves a name to its feature, made for the platform `os_info` and the user whose
/// home directory is `home_dir`. A name that stands for no feature is an error.
pub fn create_feature(name: &str, os_info: &OsInfo, home_dir: &str) -> (r: Result<
    AnyFeature,
    InstallError,
>)
    ensures
        match lookup(name@) {
            Some(kind) => r is Ok && r->Ok_0.kind() == kind && r->Ok_0.made_for(
                os_info@,
                home_dir@,
            ),
            None => r is Err && r->Err_0@ == (ErrorModel::UnknownFeature { name: name@ }),
        },
{
    if text_eq(name, "nodejs") {
        Ok(AnyFeature::NodeJs(NodeJs::new(os_info.duplicate())))
    } else if text_eq(name, "python") {
        Ok(AnyFeature::Python(Python::new(os_info.duplicate())))
    } else if text_eq(name, "docker") {
        Ok(AnyFeature::Docker(Docker::new(os_info.duplicate())))
    } else if text_eq(name, "uv") {
        Ok(AnyFeature::Uv(Uv::new(os_info.duplicate(), home_dir)))
    } else {
        Err(InstallError::UnknownFeature { name: String::from_str(name) })
    }
}

/// Installing a feature that is already present asks nothing of the host beyond the
/// probe and succeeds where the probe ended.
pub proof fn lemma_install_is_idempotent(
    probe: ProgressModel<bool>,
    strategy: spec_fn(int) -> VerdictProgress,
)
    ensures
        probe is Pending ==> guarded(probe, strategy) == ProgressModel::<
            Result<(), ErrorModel>,
        >::Pending(probe->Pending_0),
        probe is Finished && probe->Finished_0 ==> guarded(probe, strategy)
            == ProgressModel::<Result<(), ErrorModel>>::Finished(Ok(()), probe->Finished_1),
{
}

} // verus!
