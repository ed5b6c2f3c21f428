//! The installation orchestrator: takes the requested features through their
//! lifecycles in order and applies the fail-fast policy.

use vstd::prelude::*;
use crate::config::InstallerConfig;
use crate::error::{ErrorModel, InstallError, Verdict, verdict_model};
use crate::features::{
    create_feature, Feature, FeatureKind, install_of, lemma_feature_ends,
    lemma_feature_follows_its_kind, lemma_install_settles, lemma_probe_settles,
    lemma_verify_settles, lookup, probe_of, verify_of,
};
use crate::host::{Action, ActionModel, Outcome, OutcomeModel};
use crate::os::{OsInfo, OsModel};
use crate::package_managers::{
    Backend, backend_for, BackendKind, create_package_manager, PackageManager,
};
use crate::progress::{continues, ends_within, Progress, ProgressModel, settled};

verus! {

/// What became of one requested feature.
#[derive(Debug, Clone, PartialEq, Eq)]
pub enum FeatureOutcome {
    /// The feature was installed and verified.
    Success,
    /// The feature was already installed.
    Skipped,
    /// The install or the verification failed, for this reason.
    Failed(InstallError),
}

/// Mathematical value of a [`FeatureOutcome`].
pub enum FeatureOutcomeModel {
    Success,
    Skipped,
    Failed(ErrorModel),
}

impl View for FeatureOutcome {
    type V = FeatureOutcomeModel;

    open spec fn view(&self) -> FeatureOutcomeModel {
        match self {
            FeatureOutcome::Success => FeatureOutcomeModel::Success,
            FeatureOutcome::Skipped => FeatureOutcomeModel::Skipped,
            FeatureOutcome::Failed(e) => FeatureOutcomeModel::Failed(e@),
        }
    }
}

impl DeepView for FeatureOutcome {
    type V = FeatureOutcomeModel;

    open spec fn deep_view(&self) -> FeatureOutcomeModel {
        self@
    }
}

/// The result of a run: what became of each feature that was attempted, in the order
/// of the request, and whether the run as a whole succeeded.
#[derive(Debug, PartialEq, Eq)]
pub struct RunReport {
    pub outcomes: Vec<FeatureOutcome>,
    pub result: Verdict,
}

/// Mathematical value of a [`RunReport`].
pub struct ReportModel {
    pub outcomes: Seq<FeatureOutcomeModel>,
    pub result: Result<(), ErrorModel>,
}

impl View for RunReport {
    type V = ReportModel;

    open spec fn view(&self) -> ReportModel {
        ReportModel { outcomes: self.outcomes.deep_view(), result: verdict_model(self.result) }
    }
}

impl ReportModel {
    /// Whether any attempted feature failed.
    pub open spec fn has_failures(self) -> bool {
        exists|j: int| 0 <= j < self.outcomes.len() && #[trigger] self.outcomes[j] is Failed
    }
}

impl RunReport {
    /// Whether any attempted feature failed. A run without the fail-fast policy
    /// succeeds as a whole even when features failed; a caller that wants such a run
    /// to count as failed asks here.
    pub fn has_failures(&self) -> (any: bool)
        ensures
            any == self@.has_failures(),
    {
        let n: usize = self.outcomes.len();
        let mut i: usize = 0;
        while i < n
            invariant
                n == self.outcomes@.len(),
                i <= n,
                forall|j: int| 0 <= j < i ==> !(#[trigger] self@.outcomes[j] is Failed),
            decreases n - i,
        {
            match &self.outcomes[i] {
                FeatureOutcome::Failed(_) => {
                    assert(self@.outcomes[i as int] is Failed);
                    return true;
                },
                _ => {},
            }
            i += 1;
        }
        false
    }
}

/// Where a run stands.
#[derive(Debug, PartialEq, Eq)]
pub enum Step {
    /// The host is to perform this action and append its outcome to the log.
    Perform(Action),
    /// The run is over.
    Done(RunReport),
}

/// Mathematical value of a [`Step`].
pub enum StepModel {
    Perform(ActionModel),
    Done(ReportModel),
}

impl View for Step {
    type V = StepModel;

    open spec fn view(&self) -> StepModel {
        match self {
            Step::Perform(a) => StepModel::Perform(a@),
            Step::Done(r) => StepModel::Done(r@),
        }
    }
}

/// Mathematical value of the progress of one feature through its lifecycle.
pub type LifecycleProgress = ProgressModel<Result<FeatureOutcomeModel, ErrorModel>>;

impl View for Progress<Result<FeatureOutcome, InstallError>> {
    type V = LifecycleProgress;

    open spec fn view(&self) -> LifecycleProgress {
        match self {
            Progress::Pending(a) => ProgressModel::Pending(a@),
            Progress::Finished(Ok(o), at) => ProgressModel::Finished(Ok(o@), *at as int),
            Progress::Finished(Err(e), at) => ProgressModel::Finished(Err(e@), *at as int),
        }
    }
}

/// The platform, the user and the backend that a run works with.
pub struct Setting {
    pub os: OsModel,
    pub home: Seq<char>,
    pub backend: BackendKind,
}

/// The lifecycle of one feature: it is probed; when present it is skipped; when absent
/// it is installed and, if the install succeeded, verified. A failed install and a
/// failed verification both end the lifecycle in failure; nothing is retried.
pub open spec fn lifecycle_of(kind: FeatureKind, s: Setting, log: Seq<OutcomeModel>, at: int)
    -> ProgressModel<FeatureOutcomeModel> {
    match probe_of(kind, s.home, log, at) {
        ProgressModel::Pending(action) => ProgressModel::Pending(action),
        ProgressModel::Finished(present, k) => if present {
            ProgressModel::Finished(FeatureOutcomeModel::Skipped, k)
        } else {
            match install_of(kind, s.os, s.home, s.backend, log, k) {
                ProgressModel::Pending(action) => ProgressModel::Pending(action),
                ProgressModel::Finished(Err(e), j) => ProgressModel::Finished(
                    FeatureOutcomeModel::Failed(e),
                    j,
                ),
                ProgressModel::Finished(Ok(_), j) => match verify_of(kind, s.home, log, j) {
                    ProgressModel::Pending(action) => ProgressModel::Pending(action),
                    ProgressModel::Finished(Err(e), m) => ProgressModel::Finished(
                        FeatureOutcomeModel::Failed(e),
                        m,
                    ),
                    ProgressModel::Finished(Ok(_), m) => ProgressModel::Finished(
                        FeatureOutcomeModel::Success,
                        m,
                    ),
                },
            }
        },
    }
}

/// Where one feature stands in its lifecycle.
#[derive(Debug, Clone, Copy, PartialEq, Eq, Structural)]
pub enum LifecycleState {
    /// The probe has not concluded yet.
    NotProbed,
    /// The probe found the feature present: nothing more is done.
    Skipped,
    /// The probe found the feature absent and the install is under way.
    Installing,
    /// The install failed.
    InstallFailed,
    /// The install succeeded and the verification is under way.
    Verifying,
    /// The verification succeeded.
    Verified,
    /// The verification failed.
    VerifyFailed,
}

impl LifecycleState {
    /// Whether nothing follows this state.
    pub open spec fn is_terminal(self) -> bool {
        self == LifecycleState::Skipped || self == LifecycleState::InstallFailed || self
            == LifecycleState::Verified || self == LifecycleState::VerifyFailed
    }

    /// How far along the lifecycle this state is.
    pub open spec fn stage(self) -> int {
        match self {
            LifecycleState::NotProbed => 0,
            LifecycleState::Installing => 1,
            LifecycleState::Verifying => 2,
            _ => 3,
        }
    }
}

/// The state of a feature's lifecycle that began at `at`, as far as the log tells.
pub open spec fn state_of(kind: FeatureKind, s: Setting, log: Seq<OutcomeModel>, at: int)
    -> LifecycleState {
    match probe_of(kind, s.home, log, at) {
        ProgressModel::Pending(_) => LifecycleState::NotProbed,
        ProgressModel::Finished(present, k) => if present {
            LifecycleState::Skipped
        } else {
            match install_of(kind, s.os, s.home, s.backend, log, k) {
                ProgressModel::Pending(_) => LifecycleState::Installing,
                ProgressModel::Finished(Err(_), _) => LifecycleState::InstallFailed,
                ProgressModel::Finished(Ok(_), j) => match verify_of(kind, s.home, log, j) {
                    ProgressModel::Pending(_) => LifecycleState::Verifying,
                    ProgressModel::Finished(Err(_), _) => LifecycleState::VerifyFailed,
                    ProgressModel::Finished(Ok(_), _) => LifecycleState::Verified,
                },
            }
        },
    }
}

/// The lifecycle has an outcome exactly in its terminal states: skipped when the
/// feature was present, success when it was verified, failure when the install or the
/// verification failed.
pub proof fn lemma_outcome_of_each_state(
    kind: FeatureKind,
    s: Setting,
    log: Seq<OutcomeModel>,
    at: int,
)
    ensures
        lifecycle_of(kind, s, log, at) is Finished <==> state_of(kind, s, log, at).is_terminal(),
        state_of(kind, s, log, at) == LifecycleState::Skipped ==> lifecycle_of(
            kind,
            s,
            log,
            at,
        )->Finished_0 is Skipped,
        state_of(kind, s, log, at) == LifecycleState::Verified ==> lifecycle_of(
            kind,
            s,
            log,
            at,
        )->Finished_0 is Success,
        state_of(kind, s, log, at) == LifecycleState::InstallFailed || state_of(kind, s, log, at)
            == LifecycleState::VerifyFailed ==> lifecycle_of(kind, s, log, at)->Finished_0
            is Failed,
{
}

/// A lifecycle that has reached an outcome keeps it however the log goes on.
pub proof fn lemma_lifecycle_settles(
    kind: FeatureKind,
    s: Setting,
    log: Seq<OutcomeModel>,
    longer: Seq<OutcomeModel>,
    at: int,
)
    requires
        continues(longer, log),
        0 <= at <= log.len(),
    ensures
        settled(
            lifecycle_of(kind, s, log, at),
            lifecycle_of(kind, s, longer, at),
            at,
            log.len() as int,
        ),
{
    lemma_probe_settles(kind, s.home, log, longer, at);
    match probe_of(kind, s.home, log, at) {
        ProgressModel::Finished(present, k) => {
            if !present {
                lemma_install_settles(kind, s.os, s.home, s.backend, log, longer, k);
                match install_of(kind, s.os, s.home, s.backend, log, k) {
                    ProgressModel::Finished(Ok(_), j) => {
                        lemma_verify_settles(kind, s.home, log, longer, j);
                    },
                    _ => {},
                }
            }
        },
        _ => {},
    }
}

/// A lifecycle never goes back: as the log goes on, the state stays at its stage or
/// moves to a later one, and a terminal state stays what it is. In particular a
/// feature that failed to install is never installed again.
pub proof fn lemma_lifecycle_never_goes_back(
    kind: FeatureKind,
    s: Setting,
    log: Seq<OutcomeModel>,
    longer: Seq<OutcomeModel>,
    at: int,
)
    requires
        continues(longer, log),
        0 <= at <= log.len(),
    ensures
        state_of(kind, s, log, at).stage() <= state_of(kind, s, longer, at).stage(),
        state_of(kind, s, log, at).is_terminal() ==> state_of(kind, s, longer, at) == state_of(
            kind,
            s,
            log,
            at,
        ),
{
    lemma_probe_settles(kind, s.home, log, longer, at);
    match probe_of(kind, s.home, log, at) {
        ProgressModel::Finished(present, k) => {
            if !present {
                lemma_install_settles(kind, s.os, s.home, s.backend, log, longer, k);
                match install_of(kind, s.os, s.home, s.backend, log, k) {
                    ProgressModel::Finished(Ok(_), j) => {
                        lemma_verify_settles(kind, s.home, log, longer, j);
                    },
                    _ => {},
                }
            }
        },
        _ => {},
    }
}

/// One requested name: a name that stands for no feature is an error of the caller;
/// any other name runs through its feature's lifecycle.
pub open spec fn single_feature_model(name: Seq<char>, s: Setting, log: Seq<OutcomeModel>, at: int)
    -> LifecycleProgress {
    match lookup(name) {
        None => ProgressModel::Finished(Err(ErrorModel::UnknownFeature { name }), at),
        Some(kind) => match lifecycle_of(kind, s, log, at) {
            ProgressModel::Pending(action) => ProgressModel::Pending(action),
            ProgressModel::Finished(outcome, k) => ProgressModel::Finished(Ok(outcome), k),
        },
    }
}

/// The run from the `i`-th name on, with the outcomes `done` of the names before it
/// and the log read up to `at`.
///
/// Names are taken strictly in order. An unknown name ends the run in error whatever
/// the policy. A feature that fails ends the run in its error when `fail_fast` is set,
/// and is recorded and passed over otherwise. When no name is left the run succeeds.
pub open spec fn run_from(
    names: Seq<Seq<char>>,
    i: int,
    done: Seq<FeatureOutcomeModel>,
    fail_fast: bool,
    s: Setting,
    log: Seq<OutcomeModel>,
    at: int,
) -> StepModel
    decreases names.len() - i,
{
    if i < 0 || i >= names.len() {
        StepModel::Done(ReportModel { outcomes: done, result: Ok(()) })
    } else {
        match single_feature_model(names[i], s, log, at) {
            ProgressModel::Pending(action) => StepModel::Perform(action),
            ProgressModel::Finished(Err(e), _) => StepModel::Done(
                ReportModel { outcomes: done, result: Err(e) },
            ),
            ProgressModel::Finished(Ok(outcome), k) => match outcome {
                FeatureOutcomeModel::Failed(e) => if fail_fast {
                    StepModel::Done(ReportModel { outcomes: done.push(outcome), result: Err(e) })
                } else {
                    run_from(names, i + 1, done.push(outcome), fail_fast, s, log, k)
                },
                _ => run_from(names, i + 1, done.push(outcome), fail_fast, s, log, k),
            },
        }
    }
}

/// A whole run over the requested names.
pub open spec fn run_model(
    names: Seq<Seq<char>>,
    fail_fast: bool,
    s: Setting,
    log: Seq<OutcomeModel>,
) -> StepModel {
    run_from(names, 0, Seq::empty(), fail_fast, s, log, 0)
}

/// Whether none of the outcomes is a failure.
pub open spec fn no_failures(outcomes: Seq<FeatureOutcomeModel>) -> bool {
    forall|j: int| 0 <= j < outcomes.len() ==> !(#[trigger] outcomes[j] is Failed)
}

/// Whether no outcome but the last is a failure.
pub open spec fn only_last_may_fail(outcomes: Seq<FeatureOutcomeModel>) -> bool {
    forall|j: int| 0 <= j < outcomes.len() - 1 ==> !(#[trigger] outcomes[j] is Failed)
}

/// Whether every name stands for a feature.
pub open spec fn all_known(names: Seq<Seq<char>>) -> bool {
    forall|j: int| 0 <= j < names.len() ==> (#[trigger] lookup(names[j])) is Some
}

/// A name that stands for no feature ends the run at once, in the error that names
/// it, whatever the policy and whatever the log holds from there on: nothing is asked
/// of the host for it or for any name after it.
pub proof fn lemma_unknown_feature_aborts(
    names: Seq<Seq<char>>,
    i: int,
    done: Seq<FeatureOutcomeModel>,
    fail_fast: bool,
    s: Setting,
    log: Seq<OutcomeModel>,
    at: int,
)
    requires
        0 <= i < names.len(),
        lookup(names[i]) is None,
    ensures
        run_from(names, i, done, fail_fast, s, log, at) == StepModel::Done(
            ReportModel {
                outcomes: done,
                result: Err(ErrorModel::UnknownFeature { name: names[i] }),
            },
        ),
{
}

/// An unknown name at the head of the request ends the run before anything is asked
/// of the host, whatever the policy.
pub proof fn lemma_unknown_first_feature_aborts(
    names: Seq<Seq<char>>,
    fail_fast: bool,
    s: Setting,
    log: Seq<OutcomeModel>,
)
    requires
        names.len() > 0,
        lookup(names[0]) is None,
    ensures
        run_model(names, fail_fast, s, log) == StepModel::Done(
            ReportModel {
                outcomes: Seq::empty(),
                result: Err(ErrorModel::UnknownFeature { name: names[0] }),
            },
        ),
{
}

/// When a feature fails under the fail-fast policy the run ends there in that
/// feature's error, and no later name is attempted; without the policy the failure is
/// recorded and the run goes on with the next name.
pub proof fn lemma_failure_under_each_policy(
    names: Seq<Seq<char>>,
    i: int,
    done: Seq<FeatureOutcomeModel>,
    s: Setting,
    log: Seq<OutcomeModel>,
    at: int,
)
    requires
        0 <= i < names.len(),
        single_feature_model(names[i], s, log, at) is Finished,
        single_feature_model(names[i], s, log, at)->Finished_0 is Ok,
        single_feature_model(names[i], s, log, at)->Finished_0->Ok_0 is Failed,
    ensures
        ({
            let outcome = single_feature_model(names[i], s, log, at)->Finished_0->Ok_0;
            let k = single_feature_model(names[i], s, log, at)->Finished_1;
            &&& run_from(names, i, done, true, s, log, at) == StepModel::Done(
                ReportModel { outcomes: done.push(outcome), result: Err(outcome->Failed_0) },
            )
            &&& run_from(names, i, done, false, s, log, at) == run_from(
                names,
                i + 1,
                done.push(outcome),
                false,
                s,
                log,
                k,
            )
        }),
{
}

/// Under the fail-fast policy a finished run has attempted the names in order up to
/// the first failure and no further: only the last outcome can be a failure, and then
/// the run's result is that failure. The run succeeds exactly when every name was
/// attempted and none failed.
pub proof fn lemma_fail_fast_run_stops_at_first_failure(
    names: Seq<Seq<char>>,
    s: Setting,
    log: Seq<OutcomeModel>,
)
    requires
        run_model(names, true, s, log) is Done,
    ensures
        ({
            let report = run_model(names, true, s, log)->Done_0;
            &&& report.outcomes.len() <= names.len()
            &&& only_last_may_fail(report.outcomes)
            &&& report.outcomes.len() > 0 && report.outcomes.last() is Failed
                ==> report.result == Err::<(), ErrorModel>(report.outcomes.last()->Failed_0)
            &&& report.result is Ok <==> report.outcomes.len() == names.len() && no_failures(
                report.outcomes,
            )
        }),
{
    lemma_fail_fast_stops_at_first_failure(names, 0, Seq::empty(), s, log, 0);
}

/// The same, for the rest of a run that has come to the `i`-th name without a failure.
proof fn lemma_fail_fast_stops_at_first_failure(
    names: Seq<Seq<char>>,
    i: int,
    done: Seq<FeatureOutcomeModel>,
    s: Setting,
    log: Seq<OutcomeModel>,
    at: int,
)
    requires
        0 <= i <= names.len(),
        done.len() == i,
        no_failures(done),
        run_from(names, i, done, true, s, log, at) is Done,
    ensures
        ({
            let report = run_from(names, i, done, true, s, log, at)->Done_0;
            &&& i <= report.outcomes.len() <= names.len()
            &&& only_last_may_fail(report.outcomes)
            &&& report.outcomes.len() > 0 && report.outcomes.last() is Failed
                ==> report.result == Err::<(), ErrorModel>(report.outcomes.last()->Failed_0)
            &&& report.result is Ok <==> report.outcomes.len() == names.len() && no_failures(
                report.outcomes,
            )
        }),
    decreases names.len() - i,
{
    if i < names.len() {
        match single_feature_model(names[i], s, log, at) {
            ProgressModel::Finished(Ok(outcome), k) => {
                let next = done.push(outcome);
                if outcome is Failed {
                    assert(next.last() == outcome);
                    assert forall|j: int| 0 <= j < next.len() - 1 implies !(
                    #[trigger] next[j] is Failed) by {
                        assert(next[j] == done[j]);
                    }
                } else {
                    assert forall|j: int| 0 <= j < next.len() implies !(
                    #[trigger] next[j] is Failed) by {
                        if j < done.len() {
                            assert(next[j] == done[j]);
                        }
                    }
                    lemma_fail_fast_stops_at_first_failure(names, i + 1, next, s, log, k);
                }
            },
            _ => {},
        }
    }
}

/// Without the fail-fast policy a finished run over known names has attempted every
/// one of them and succeeds, whatever became of each.
pub proof fn lemma_lenient_run_attempts_every_feature(
    names: Seq<Seq<char>>,
    s: Setting,
    log: Seq<OutcomeModel>,
)
    requires
        all_known(names),
        run_model(names, false, s, log) is Done,
    ensures
        run_model(names, false, s, log)->Done_0.outcomes.len() == names.len(),
        run_model(names, false, s, log)->Done_0.result is Ok,
{
    lemma_lenient_run_attempts_the_rest(names, 0, Seq::empty(), s, log, 0);
}

/// The same, for the rest of a run that has come to the `i`-th name.
proof fn lemma_lenient_run_attempts_the_rest(
    names: Seq<Seq<char>>,
    i: int,
    done: Seq<FeatureOutcomeModel>,
    s: Setting,
    log: Seq<OutcomeModel>,
    at: int,
)
    requires
        0 <= i <= names.len(),
        done.len() == i,
        all_known(names),
        run_from(names, i, done, false, s, log, at) is Done,
    ensures
        run_from(names, i, done, false, s, log, at)->Done_0.outcomes.len() == names.len(),
        run_from(names, i, done, false, s, log, at)->Done_0.result is Ok,
    decreases names.len() - i,
{
    if i < names.len() {
        assert(lookup(names[i]) is Some);
        match single_feature_model(names[i], s, log, at) {
            ProgressModel::Finished(Ok(outcome), k) => {
                lemma_lenient_run_attempts_the_rest(
                    names,
                    i + 1,
                    done.push(outcome),
                    s,
                    log,
                    k,
                );
            },
            _ => {},
        }
    }
}

/// The most outcomes that the lifecycle of one feature reads.
pub open spec fn lifecycle_bound() -> int {
    33
}

/// The lifecycle of a feature ends within [`lifecycle_bound`] outcomes.
pub proof fn lemma_lifecycle_ends(kind: FeatureKind, s: Setting, log: Seq<OutcomeModel>, at: int)
    ensures
        ends_within(lifecycle_of(kind, s, log, at), at, lifecycle_bound(), log.len() as int),
{
    lemma_feature_ends(kind, s.os, s.home, s.backend, log, at);
    match probe_of(kind, s.home, log, at) {
        ProgressModel::Finished(_, k) => {
            lemma_feature_ends(kind, s.os, s.home, s.backend, log, k);
            match install_of(kind, s.os, s.home, s.backend, log, k) {
                ProgressModel::Finished(_, j) => {
                    lemma_feature_ends(kind, s.os, s.home, s.backend, log, j);
                },
                _ => {},
            }
        },
        _ => {},
    }
}

/// Every run ends: once the log holds [`lifecycle_bound`] outcomes for each requested
/// name, the run is over. A host that performs each action it is asked for is asked
/// only so many times.
pub proof fn lemma_every_run_ends(
    names: Seq<Seq<char>>,
    fail_fast: bool,
    s: Setting,
    log: Seq<OutcomeModel>,
)
    requires
        lifecycle_bound() * names.len() <= log.len(),
    ensures
        run_model(names, fail_fast, s, log) is Done,
{
    lemma_run_ends(names, 0, Seq::empty(), fail_fast, s, log, 0);
}

/// The same, for the rest of a run that has come to the `i`-th name.
proof fn lemma_run_ends(
    names: Seq<Seq<char>>,
    i: int,
    done: Seq<FeatureOutcomeModel>,
    fail_fast: bool,
    s: Setting,
    log: Seq<OutcomeModel>,
    at: int,
)
    requires
        0 <= i <= names.len(),
        at + lifecycle_bound() * (names.len() - i) <= log.len(),
    ensures
        run_from(names, i, done, fail_fast, s, log, at) is Done,
    decreases names.len() - i,
{
    if i < names.len() {
        match lookup(names[i]) {
            Some(kind) => {
                lemma_lifecycle_ends(kind, s, log, at);
                match lifecycle_of(kind, s, log, at) {
                    ProgressModel::Finished(outcome, k) => {
                        lemma_run_ends(names, i + 1, done.push(outcome), fail_fast, s, log, k);
                    },
                    _ => {},
                }
            },
            None => {},
        }
    }
}

/// The rest of a run that has ended has ended for good, however the log goes on.
proof fn lemma_finished_run_is_final(
    names: Seq<Seq<char>>,
    i: int,
    done: Seq<FeatureOutcomeModel>,
    fail_fast: bool,
    s: Setting,
    log: Seq<OutcomeModel>,
    longer: Seq<OutcomeModel>,
    at: int,
)
    requires
        continues(longer, log),
        0 <= at <= log.len(),
        run_from(names, i, done, fail_fast, s, log, at) is Done,
    ensures
        run_from(names, i, done, fail_fast, s, longer, at) == run_from(
            names,
            i,
            done,
            fail_fast,
            s,
            log,
            at,
        ),
    decreases names.len() - i,
{
    if 0 <= i < names.len() {
        match lookup(names[i]) {
            Some(kind) => {
                lemma_lifecycle_settles(kind, s, log, longer, at);
                match lifecycle_of(kind, s, log, at) {
                    ProgressModel::Finished(outcome, k) => {
                        if !(fail_fast && outcome is Failed) {
                            lemma_finished_run_is_final(
                                names,
                                i + 1,
                                done.push(outcome),
                                fail_fast,
                                s,
                                log,
                                longer,
                                k,
                            );
                        }
                    },
                    _ => {},
                }
            },
            None => {},
        }
    }
}

/// A run that has ended has ended for good: however the log goes on, its report stays
/// the same and nothing more is asked of the host.
pub proof fn lemma_report_is_final(
    names: Seq<Seq<char>>,
    fail_fast: bool,
    s: Setting,
    log: Seq<OutcomeModel>,
    longer: Seq<OutcomeModel>,
)
    requires
        continues(longer, log),
        run_model(names, fail_fast, s, log) is Done,
    ensures
        run_model(names, fail_fast, s, longer) == run_model(names, fail_fast, s, log),
{
    lemma_finished_run_is_final(names, 0, Seq::empty(), fail_fast, s, log, longer, 0);
}

/// Sequences the installation of features and applies the fail-fast policy.
#[derive(Debug, Clone, PartialEq, Eq)]
pub struct FeatureInstaller {
    config: InstallerConfig,
    package_manager: Backend,
    os_info: OsInfo,
    home_dir: String,
}

impl FeatureInstaller {
    /// The settings of the run.
    pub closed spec fn settings(&self) -> InstallerConfig {
        self.config
    }

    /// The platform, the user and the backend of the run.
    pub closed spec fn setting(&self) -> Setting {
        Setting {
            os: self.os_info@,
            home: self.home_dir@,
            backend: self.package_manager.kind(),
        }
    }

    /// Sets up a run for the platform `os_info` and the user whose home directory is
    /// `home_dir`, and selects the backend. Fails only for a platform of an unknown
    /// family, for which no backend exists.
    pub fn new(config: InstallerConfig, os_info: OsInfo, home_dir: &str) -> (r: Result<
        Self,
        InstallError,
    >)
        ensures
            match backend_for(os_info@) {
                Some(kind) => r is Ok && r->Ok_0.settings() == config && r->Ok_0.setting() == (
                Setting { os: os_info@, home: home_dir@, backend: kind }),
                None => r is Err && r->Err_0@ == ErrorModel::UnsupportedPlatform,
            },
    {
        match create_package_manager(&os_info) {
            Ok(package_manager) => Ok(
                FeatureInstaller {
                    config,
                    package_manager,
                    os_info,
                    home_dir: String::from_str(home_dir),
                },
            ),
            Err(e) => Err(e),
        }
    }

    /// The settings of the run.
    pub fn config(&self) -> (config: InstallerConfig)
        ensures
            config == self.settings(),
    {
        self.config
    }

    /// The backend that was selected for the run.
    pub fn package_manager(&self) -> (backend: Backend)
        ensures
            backend.kind() == self.setting().backend,
    {
        self.package_manager
    }

    /// The platform of the run.
    pub fn os_info(&self) -> (os_info: &OsInfo)
        ensures
            os_info@ == self.setting().os,
    {
        &self.os_info
    }

    /// Takes one requested name through its feature's lifecycle, reading the log from
    /// position `at`.
    pub fn install_single_feature(&self, feature_name: &str, log: &Vec<Outcome>, at: usize) -> (r:
        Progress<Result<FeatureOutcome, InstallError>>)
        ensures
            r@ == single_feature_model(feature_name@, self.setting(), log.deep_view(), at as int),
    {
        let feature = match create_feature(
            feature_name,
            &self.os_info,
            self.home_dir.as_str(),
        ) {
            Ok(feature) => feature,
            Err(e) => {
                return Progress::Finished(Err(e), at);
            },
        };
        let ghost s = self.setting();
        let ghost entries = log.deep_view();
        let at = match feature.is_installed(log, at) {
            Progress::Pending(action) => {
                return Progress::Pending(action);
            },
            Progress::Finished(present, k) => {
                proof {
                    lemma_feature_follows_its_kind(feature, s.os, s.home, s.backend, entries, at as int);
                }
                if present {
                    return Progress::Finished(Ok(FeatureOutcome::Skipped), k);
                }
                k
            },
        };
        proof {
            lemma_feature_follows_its_kind(feature, s.os, s.home, s.backend, entries, at as int);
        }
        let at = match feature.install(&self.package_manager, log, at) {
            Progress::Pending(action) => {
                return Progress::Pending(action);
            },
            Progress::Finished(Err(e), k) => {
                return Progress::Finished(Ok(FeatureOutcome::Failed(e)), k);
            },
            Progress::Finished(Ok(_), k) => k,
        };
        proof {
            lemma_feature_follows_its_kind(feature, s.os, s.home, s.backend, entries, at as int);
        }
        match feature.verify(log, at) {
            Progress::Pending(action) => Progress::Pending(action),
            Progress::Finished(Err(e), k) => Progress::Finished(
                Ok(FeatureOutcome::Failed(e)),
                k,
            ),
            Progress::Finished(Ok(_), k) => Progress::Finished(Ok(FeatureOutcome::Success), k),
        }
    }

    /// Tells where the feature named `feature_name` stands in the lifecycle that began
    /// at position `at` of the log.
    pub fn feature_state(&self, feature_name: &str, log: &Vec<Outcome>, at: usize) -> (r: Result<
        LifecycleState,
        InstallError,
    >)
        ensures
            match lookup(feature_name@) {
                Some(kind) => r == Ok::<LifecycleState, InstallError>(
                    state_of(kind, self.setting(), log.deep_view(), at as int),
                ),
                None => r is Err && r->Err_0@ == (ErrorModel::UnknownFeature {
                    name: feature_name@,
                }),
            },
    {
        let feature = match create_feature(
            feature_name,
            &self.os_info,
            self.home_dir.as_str(),
        ) {
            Ok(feature) => feature,
            Err(e) => {
                return Err(e);
            },
        };
        let ghost s = self.setting();
        let ghost entries = log.deep_view();
        proof {
            lemma_feature_follows_its_kind(feature, s.os, s.home, s.backend, entries, at as int);
        }
        let at = match feature.is_installed(log, at) {
            Progress::Pending(_) => {
                return Ok(LifecycleState::NotProbed);
            },
            Progress::Finished(present, k) => {
                if present {
                    return Ok(LifecycleState::Skipped);
                }
                k
            },
        };
        proof {
            lemma_feature_follows_its_kind(feature, s.os, s.home, s.backend, entries, at as int);
        }
        let at = match feature.install(&self.package_manager, log, at) {
            Progress::Pending(_) => {
                return Ok(LifecycleState::Installing);
            },
            Progress::Finished(Err(_), _) => {
                return Ok(LifecycleState::InstallFailed);
            },
            Progress::Finished(Ok(_), k) => k,
        };
        proof {
            lemma_feature_follows_its_kind(feature, s.os, s.home, s.backend, entries, at as int);
        }
        match feature.verify(log, at) {
            Progress::Pending(_) => Ok(LifecycleState::Verifying),
            Progress::Finished(Err(_), _) => Ok(LifecycleState::VerifyFailed),
            Progress::Finished(Ok(_), _) => Ok(LifecycleState::Verified),
        }
    }

    /// Installs the requested features in the given order, one after the other, as far
    /// as the log of outcomes reaches.
    pub fn install_features(&self, feature_names: &Vec<String>, log: &Vec<Outcome>) -> (r: Step)
        ensures
            r@ == run_model(
                feature_names.deep_view(),
                self.settings().fail_fast,
                self.setting(),
                log.deep_view(),
            ),
    {
        let ghost names = feature_names.deep_view();
        let ghost s = self.setting();
        let fail_fast = self.config.fail_fast;
        let n: usize = feature_names.len();
        let mut outcomes: Vec<FeatureOutcome> = Vec::new();
        let mut i: usize = 0;
        let mut at: usize = 0;
        assert(outcomes.deep_view() =~= Seq::<FeatureOutcomeModel>::empty());
        while i < n
            invariant
                n == feature_names@.len(),
                names == feature_names.deep_view(),
                s == self.setting(),
                fail_fast == self.settings().fail_fast,
                i <= n,
                run_model(names, fail_fast, s, log.deep_view()) == run_from(
                    names,
                    i as int,
                    outcomes.deep_view(),
                    fail_fast,
                    s,
                    log.deep_view(),
                    at as int,
                ),
            decreases n - i,
        {
            let ghost done = outcomes.deep_view();
            assert(names[i as int] == feature_names@[i as int]@);
            match self.install_single_feature(feature_names[i].as_str(), log, at) {
                Progress::Pending(action) => {
                    return Step::Perform(action);
                },
                Progress::Finished(Err(e), _) => {
                    return Step::Done(RunReport { outcomes, result: Err(e) });
                },
                Progress::Finished(Ok(outcome), k) => {
                    let failure: Option<InstallError> = match &outcome {
                        FeatureOutcome::Failed(e) => Some(e.duplicate()),
                        _ => None,
                    };
                    outcomes.push(outcome);
                    assert(outcomes.deep_view() =~= done.push(outcome@));
                    match failure {
                        Some(e) => {
                            if fail_fast {
                                return Step::Done(RunReport { outcomes, result: Err(e) });
                            }
                        },
                        None => {},
                    }
                    at = k;
                    i += 1;
                },
            }
        }
        Step::Done(RunReport { outcomes, result: Ok(()) })
    }
}

} // verus!
