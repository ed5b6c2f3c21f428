//! Resumable procedures over the log of outcomes.
//!
//! A procedure reads the outcomes of its own earlier requests from the log, starting at
//! a given position. When the log runs out it names the next request; the host performs
//! it, appends the outcome and asks again. Once the log holds everything the procedure
//! needs, it finishes with its result and the position after the last outcome it read.

use vstd::prelude::*;
use crate::error::{command_failure, ErrorModel, Verdict, verdict_model};
use crate::host::{Action, ActionModel, Command, CommandModel, LogLevel, Outcome, OutcomeModel};

verus! {

/// Where a resumable procedure stands.
#[derive(Debug, Clone, PartialEq, Eq)]
pub enum Progress<T> {
    /// The log has run out; the host is to perform this action next.
    Pending(Action),
    /// The procedure is complete, with its result and the position in the log after it.
    Finished(T, usize),
}

/// Mathematical value of a [`Progress`].
pub enum ProgressModel<T> {
    Pending(ActionModel),
    Finished(T, int),
}

impl View for Progress<bool> {
    type V = ProgressModel<bool>;

    open spec fn view(&self) -> ProgressModel<bool> {
        match self {
            Progress::Pending(a) => ProgressModel::Pending(a@),
            Progress::Finished(b, at) => ProgressModel::Finished(*b, *at as int),
        }
    }
}

impl View for Progress<Verdict> {
    type V = ProgressModel<Result<(), ErrorModel>>;

    open spec fn view(&self) -> ProgressModel<Result<(), ErrorModel>> {
        match self {
            Progress::Pending(a) => ProgressModel::Pending(a@),
            Progress::Finished(v, at) => ProgressModel::Finished(verdict_model(*v), *at as int),
        }
    }
}

impl View for Progress<String> {
    type V = ProgressModel<Seq<char>>;

    open spec fn view(&self) -> ProgressModel<Seq<char>> {
        match self {
            Progress::Pending(a) => ProgressModel::Pending(a@),
            Progress::Finished(s, at) => ProgressModel::Finished(s@, *at as int),
        }
    }
}

/// Asking for one action: its success, once the log holds its outcome.
pub open spec fn attempt_model(action: ActionModel, log: Seq<OutcomeModel>, at: int)
    -> ProgressModel<bool> {
    if at >= log.len() {
        ProgressModel::Pending(action)
    } else {
        ProgressModel::Finished(log[at].succeeded(), at + 1)
    }
}

/// Running commands in order, each of which must succeed: the first outcome that is not
/// a success ends the sequence with that command's failure.
pub open spec fn run_all_model(cmds: Seq<CommandModel>, log: Seq<OutcomeModel>, at: int)
    -> ProgressModel<Result<(), ErrorModel>>
    decreases cmds.len(),
{
    if cmds.len() == 0 {
        ProgressModel::Finished(Ok(()), at)
    } else if at >= log.len() {
        ProgressModel::Pending(ActionModel::Run(cmds[0]))
    } else if !log[at].succeeded() {
        ProgressModel::Finished(Err(command_failure(cmds[0], log[at])), at + 1)
    } else {
        run_all_model(cmds.drop_first(), log, at + 1)
    }
}

/// Mathematical value of the progress of a procedure that succeeds or reports an error.
pub type VerdictProgress = ProgressModel<Result<(), ErrorModel>>;

/// Continues with `next` from where `first` stopped, if `first` succeeded.
pub open spec fn and_then(first: VerdictProgress, next: spec_fn(int) -> VerdictProgress)
    -> VerdictProgress {
    match first {
        ProgressModel::Finished(Ok(_), k) => next(k),
        _ => first,
    }
}

/// Falls back to `next` from where `first` stopped, if `first` failed. The error of
/// `first` is then dropped: only the last tier's error can surface.
pub open spec fn or_else(first: VerdictProgress, next: spec_fn(int) -> VerdictProgress)
    -> VerdictProgress {
    match first {
        ProgressModel::Finished(Err(_), k) => next(k),
        _ => first,
    }
}

/// Running commands in order until one succeeds: whether any did.
pub open spec fn any_succeeds_model(cmds: Seq<CommandModel>, log: Seq<OutcomeModel>, at: int)
    -> ProgressModel<bool>
    decreases cmds.len(),
{
    if cmds.len() == 0 {
        ProgressModel::Finished(false, at)
    } else if at >= log.len() {
        ProgressModel::Pending(ActionModel::Run(cmds[0]))
    } else if log[at].succeeded() {
        ProgressModel::Finished(true, at + 1)
    } else {
        any_succeeds_model(cmds.drop_first(), log, at + 1)
    }
}

/// Looking for the first of `paths` that exists, and `fallback` if none does.
pub open spec fn first_existing_model(
    paths: Seq<Seq<char>>,
    fallback: Seq<char>,
    log: Seq<OutcomeModel>,
    at: int,
) -> ProgressModel<Seq<char>>
    decreases paths.len(),
{
    if paths.len() == 0 {
        ProgressModel::Finished(fallback, at)
    } else if at >= log.len() {
        ProgressModel::Pending(ActionModel::PathExists { path: paths[0] })
    } else if log[at].succeeded() {
        ProgressModel::Finished(paths[0], at + 1)
    } else {
        first_existing_model(paths.drop_first(), fallback, log, at + 1)
    }
}

/// When every tier of a fallback fails, the error that surfaces is the last tier's.
pub proof fn lemma_fallback_reports_last_error(
    first: VerdictProgress,
    next: spec_fn(int) -> VerdictProgress,
)
    requires
        first is Finished,
        first->Finished_0 is Err,
        next(first->Finished_1) is Finished,
        next(first->Finished_1)->Finished_0 is Err,
    ensures
        or_else(first, next) == next(first->Finished_1),
        or_else(first, next)->Finished_0 == next(first->Finished_1)->Finished_0,
{
}

/// A fallback whose first tier succeeds never reaches the later tier.
pub proof fn lemma_fallback_stops_at_success(
    first: VerdictProgress,
    next: spec_fn(int) -> VerdictProgress,
)
    requires
        first is Finished,
        first->Finished_0 is Ok,
    ensures
        or_else(first, next) == first,
{
}

/// Carrying out a plan: its commands in order, or its error at once.
pub open spec fn carry_out(
    plan: Result<Seq<CommandModel>, ErrorModel>,
    log: Seq<OutcomeModel>,
    at: int,
) -> VerdictProgress {
    match plan {
        Ok(cmds) => run_all_model(cmds, log, at),
        Err(e) => ProgressModel::Finished(Err(e), at),
    }
}

/// Running a command that must start but whose exit status does not matter.
pub open spec fn launch_model(cmd: CommandModel, log: Seq<OutcomeModel>, at: int)
    -> VerdictProgress {
    if at >= log.len() {
        ProgressModel::Pending(ActionModel::Run(cmd))
    } else if !log[at].completed() {
        ProgressModel::Finished(Err(command_failure(cmd, log[at])), at + 1)
    } else {
        ProgressModel::Finished(Ok(()), at + 1)
    }
}

/// Running a command whose outcome does not matter at all.
pub open spec fn ignored_model(cmd: CommandModel, log: Seq<OutcomeModel>, at: int)
    -> VerdictProgress {
    if at >= log.len() {
        ProgressModel::Pending(ActionModel::Run(cmd))
    } else {
        ProgressModel::Finished(Ok(()), at + 1)
    }
}

/// Running a command whose failure is reported as a warning and is never an error.
pub open spec fn best_effort_model(
    cmd: CommandModel,
    warning: Seq<char>,
    log: Seq<OutcomeModel>,
    at: int,
) -> VerdictProgress {
    if at >= log.len() {
        ProgressModel::Pending(ActionModel::Run(cmd))
    } else if log[at].succeeded() {
        ProgressModel::Finished(Ok(()), at + 1)
    } else if at + 1 >= log.len() {
        ProgressModel::Pending(ActionModel::Log { level: LogLevel::Warn, message: warning })
    } else {
        ProgressModel::Finished(Ok(()), at + 2)
    }
}

/// Whether `longer` continues `log`: it holds the same outcomes, and maybe more after
/// them.
pub open spec fn continues(longer: Seq<OutcomeModel>, log: Seq<OutcomeModel>) -> bool {
    &&& log.len() <= longer.len()
    &&& forall|i: int| 0 <= i < log.len() ==> #[trigger] longer[i] == log[i]
}

/// Whether a procedure that started at `at` of a log of `len` outcomes is settled: if
/// it finished, it read no outcome before `at` or beyond the log, and it finishes in
/// the same way on the longer log that gave `after`.
pub open spec fn settled<T>(
    before: ProgressModel<T>,
    after: ProgressModel<T>,
    at: int,
    len: int,
) -> bool {
    before is Finished ==> after == before && at <= before->Finished_1 <= len
}

/// Whether a procedure that started at `at` of a log of `len` outcomes ends within
/// `n` outcomes: with that many in the log it has finished, and has read no more.
pub open spec fn ends_within<T>(p: ProgressModel<T>, at: int, n: int, len: int) -> bool {
    at + n <= len ==> p is Finished && at <= p->Finished_1 <= at + n
}

/// A sequence of commands ends within as many outcomes as it has commands.
pub proof fn lemma_run_all_ends(cmds: Seq<CommandModel>, log: Seq<OutcomeModel>, at: int)
    ensures
        ends_within(run_all_model(cmds, log, at), at, cmds.len() as int, log.len() as int),
    decreases cmds.len(),
{
    if cmds.len() > 0 && at < log.len() && log[at].succeeded() {
        lemma_run_all_ends(cmds.drop_first(), log, at + 1);
    }
}

/// A search for a command that succeeds ends within as many outcomes as it has
/// commands.
pub proof fn lemma_any_succeeds_ends(cmds: Seq<CommandModel>, log: Seq<OutcomeModel>, at: int)
    ensures
        ends_within(any_succeeds_model(cmds, log, at), at, cmds.len() as int, log.len() as int),
    decreases cmds.len(),
{
    if cmds.len() > 0 && at < log.len() && !log[at].succeeded() {
        lemma_any_succeeds_ends(cmds.drop_first(), log, at + 1);
    }
}

/// A search for a path that exists ends within as many outcomes as it has paths.
pub proof fn lemma_first_existing_ends(
    paths: Seq<Seq<char>>,
    fallback: Seq<char>,
    log: Seq<OutcomeModel>,
    at: int,
)
    ensures
        ends_within(
            first_existing_model(paths, fallback, log, at),
            at,
            paths.len() as int,
            log.len() as int,
        ),
    decreases paths.len(),
{
    if paths.len() > 0 && at < log.len() && !log[at].succeeded() {
        lemma_first_existing_ends(paths.drop_first(), fallback, log, at + 1);
    }
}

/// A sequence of commands that has finished stays finished, in the same way, however
/// the log goes on.
pub proof fn lemma_run_all_settles(
    cmds: Seq<CommandModel>,
    log: Seq<OutcomeModel>,
    longer: Seq<OutcomeModel>,
    at: int,
)
    requires
        continues(longer, log),
        0 <= at <= log.len(),
    ensures
        settled(run_all_model(cmds, log, at), run_all_model(cmds, longer, at), at, log.len() as int),
    decreases cmds.len(),
{
    if cmds.len() > 0 && at < log.len() {
        assert(longer[at] == log[at]);
        if log[at].succeeded() {
            lemma_run_all_settles(cmds.drop_first(), log, longer, at + 1);
        }
    }
}

/// A search for a command that succeeds, once finished, stays finished in the same
/// way however the log goes on.
pub proof fn lemma_any_succeeds_settles(
    cmds: Seq<CommandModel>,
    log: Seq<OutcomeModel>,
    longer: Seq<OutcomeModel>,
    at: int,
)
    requires
        continues(longer, log),
        0 <= at <= log.len(),
    ensures
        settled(
            any_succeeds_model(cmds, log, at),
            any_succeeds_model(cmds, longer, at),
            at,
            log.len() as int,
        ),
    decreases cmds.len(),
{
    if cmds.len() > 0 && at < log.len() {
        assert(longer[at] == log[at]);
        if !log[at].succeeded() {
            lemma_any_succeeds_settles(cmds.drop_first(), log, longer, at + 1);
        }
    }
}

/// A search for a path that exists, once finished, stays finished in the same way
/// however the log goes on.
pub proof fn lemma_first_existing_settles(
    paths: Seq<Seq<char>>,
    fallback: Seq<char>,
    log: Seq<OutcomeModel>,
    longer: Seq<OutcomeModel>,
    at: int,
)
    requires
        continues(longer, log),
        0 <= at <= log.len(),
    ensures
        settled(
            first_existing_model(paths, fallback, log, at),
            first_existing_model(paths, fallback, longer, at),
            at,
            log.len() as int,
        ),
    decreases paths.len(),
{
    if paths.len() > 0 && at < log.len() {
        assert(longer[at] == log[at]);
        if !log[at].succeeded() {
            lemma_first_existing_settles(paths.drop_first(), fallback, log, longer, at + 1);
        }
    }
}

/// Each single step, once it has read its outcome, stays finished in the same way
/// however the log goes on.
pub proof fn lemma_single_steps_settle(
    cmd: CommandModel,
    action: ActionModel,
    warning: Seq<char>,
    log: Seq<OutcomeModel>,
    longer: Seq<OutcomeModel>,
    at: int,
)
    requires
        continues(longer, log),
        0 <= at <= log.len(),
    ensures
        settled(attempt_model(action, log, at), attempt_model(action, longer, at), at, log.len() as int),
        settled(launch_model(cmd, log, at), launch_model(cmd, longer, at), at, log.len() as int),
        settled(ignored_model(cmd, log, at), ignored_model(cmd, longer, at), at, log.len() as int),
        settled(
            best_effort_model(cmd, warning, log, at),
            best_effort_model(cmd, warning, longer, at),
            at,
            log.len() as int,
        ),
{
    if at < log.len() {
        assert(longer[at] == log[at]);
        if at + 1 < log.len() {
            assert(longer[at + 1] == log[at + 1]);
        }
    }
}

/// Asks for one action and tells whether it succeeded.
pub fn attempt(action: Action, log: &Vec<Outcome>, at: usize) -> (r: Progress<bool>)
    ensures
        r@ == attempt_model(action@, log.deep_view(), at as int),
{
    if at >= log.len() {
        Progress::Pending(action)
    } else {
        Progress::Finished(log[at].succeeded(), at + 1)
    }
}

/// Runs the commands in order from position `at` of the log, stopping at the first one
/// that does not succeed.
pub fn run_all(cmds: &Vec<Command>, log: &Vec<Outcome>, at: usize) -> (r: Progress<Verdict>)
    ensures
        r@ == run_all_model(cmds.deep_view(), log.deep_view(), at as int),
{
    let ghost all = cmds.deep_view();
    let n: usize = cmds.len();
    let mut i: usize = 0;
    let mut pos: usize = at;
    assert(all.subrange(0, n as int) =~= all);
    while i < n
        invariant
            n == cmds@.len(),
            i <= n,
            cmds.deep_view() == all,
            at <= pos,
            pos <= log@.len() || i == 0,
            run_all_model(all, log.deep_view(), at as int) == run_all_model(
                all.subrange(i as int, n as int),
                log.deep_view(),
                pos as int,
            ),
        decreases n - i,
    {
        let ghost rest = all.subrange(i as int, n as int);
        assert(rest[0] == cmds@[i as int]@);
        assert(rest.drop_first() =~= all.subrange(i + 1, n as int));
        if pos >= log.len() {
            return Progress::Pending(Action::Run(cmds[i].duplicate()));
        }
        let outcome = &log[pos];
        if !outcome.succeeded() {
            return Progress::Finished(Err(cmds[i].failure(outcome)), pos + 1);
        }
        pos += 1;
        i += 1;
    }
    assert(all.subrange(n as int, n as int) =~= Seq::<CommandModel>::empty());
    Progress::Finished(Ok(()), pos)
}

/// Runs the commands in order from position `at` of the log until one succeeds, and
/// tells whether any did.
pub fn any_succeeds(cmds: &Vec<Command>, log: &Vec<Outcome>, at: usize) -> (r: Progress<bool>)
    ensures
        r@ == any_succeeds_model(cmds.deep_view(), log.deep_view(), at as int),
{
    let ghost all = cmds.deep_view();
    let n: usize = cmds.len();
    let mut i: usize = 0;
    let mut pos: usize = at;
    assert(all.subrange(0, n as int) =~= all);
    while i < n
        invariant
            n == cmds@.len(),
            i <= n,
            cmds.deep_view() == all,
            at <= pos,
            pos <= log@.len() || i == 0,
            any_succeeds_model(all, log.deep_view(), at as int) == any_succeeds_model(
                all.subrange(i as int, n as int),
                log.deep_view(),
                pos as int,
            ),
        decreases n - i,
    {
        let ghost rest = all.subrange(i as int, n as int);
        assert(rest[0] == cmds@[i as int]@);
        assert(rest.drop_first() =~= all.subrange(i + 1, n as int));
        if pos >= log.len() {
            return Progress::Pending(Action::Run(cmds[i].duplicate()));
        }
        if log[pos].succeeded() {
            return Progress::Finished(true, pos + 1);
        }
        pos += 1;
        i += 1;
    }
    assert(all.subrange(n as int, n as int) =~= Seq::<CommandModel>::empty());
    Progress::Finished(false, pos)
}

/// Asks for each of `paths` in order whether it exists, and gives the first that does,
/// or `fallback` if none does.
pub fn first_existing(paths: &Vec<String>, fallback: &str, log: &Vec<Outcome>, at: usize) -> (r:
    Progress<String>)
    ensures
        r@ == first_existing_model(paths.deep_view(), fallback@, log.deep_view(), at as int),
{
    let ghost all = paths.deep_view();
    let n: usize = paths.len();
    let mut i: usize = 0;
    let mut pos: usize = at;
    assert(all.subrange(0, n as int) =~= all);
    while i < n
        invariant
            n == paths@.len(),
            i <= n,
            paths.deep_view() == all,
            at <= pos,
            pos <= log@.len() || i == 0,
            first_existing_model(all, fallback@, log.deep_view(), at as int)
                == first_existing_model(
                all.subrange(i as int, n as int),
                fallback@,
                log.deep_view(),
                pos as int,
            ),
        decreases n - i,
    {
        let ghost rest = all.subrange(i as int, n as int);
        assert(rest[0] == paths@[i as int]@);
        assert(rest.drop_first() =~= all.subrange(i + 1, n as int));
        if pos >= log.len() {
            return Progress::Pending(Action::PathExists { path: paths[i].clone() });
        }
        if log[pos].succeeded() {
            return Progress::Finished(paths[i].clone(), pos + 1);
        }
        pos += 1;
        i += 1;
    }
    assert(all.subrange(n as int, n as int) =~= Seq::<Seq<char>>::empty());
    Progress::Finished(String::from_str(fallback), pos)
}

/// Runs a command that must start but whose exit status does not matter.
pub fn launch(cmd: Command, log: &Vec<Outcome>, at: usize) -> (r: Progress<Verdict>)
    ensures
        r@ == launch_model(cmd@, log.deep_view(), at as int),
{
    if at >= log.len() {
        return Progress::Pending(Action::Run(cmd));
    }
    let outcome = &log[at];
    if !outcome.completed() {
        return Progress::Finished(Err(cmd.failure(outcome)), at + 1);
    }
    Progress::Finished(Ok(()), at + 1)
}

/// Runs a command whose outcome does not matter at all.
pub fn ignored(cmd: Command, log: &Vec<Outcome>, at: usize) -> (r: Progress<Verdict>)
    ensures
        r@ == ignored_model(cmd@, log.deep_view(), at as int),
{
    if at >= log.len() {
        return Progress::Pending(Action::Run(cmd));
    }
    Progress::Finished(Ok(()), at + 1)
}

/// Runs a command and warns when it fails; the failure is never an error.
pub fn best_effort(cmd: Command, warning: &str, log: &Vec<Outcome>, at: usize) -> (r: Progress<
    Verdict,
>)
    ensures
        r@ == best_effort_model(cmd@, warning@, log.deep_view(), at as int),
{
    if at >= log.len() {
        return Progress::Pending(Action::Run(cmd));
    }
    if log[at].succeeded() {
        return Progress::Finished(Ok(()), at + 1);
    }
    if at + 1 >= log.len() {
        return Progress::Pending(
            Action::Log { level: LogLevel::Warn, message: String::from_str(warning) },
        );
    }
    Progress::Finished(Ok(()), at + 2)
}

} // verus!
