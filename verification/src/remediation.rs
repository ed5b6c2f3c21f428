//! Path remediation: making a binary that was installed outside the searched
//! directories reachable from the shell.
//!
//! Three fixes are tried in order and the first that works ends the remediation: source
//! the companion environment file from the shell's startup file; link the binary into
//! the system-wide executable directory; link it into a per-user executable directory
//! and put that directory on the search path. When none works a warning names the
//! binary. Remediation is best effort and never an error.
//!
//! The startup file is only ever appended to, and never with a line it already holds.

use vstd::prelude::*;
use crate::host::{Action, ActionModel, CommandModel, LogLevel, Outcome, OutcomeModel};
use crate::package_managers::{elevated, sudo};
use crate::progress::{continues, ends_within, Progress, ProgressModel, settled};
use crate::text::{contains, lacks, occurs_at, text_contains};

verus! {

/// How a remediation ended.
#[derive(Debug, Clone, Copy, PartialEq, Eq, Structural)]
pub enum Remedy {
    /// The binary is not where a standalone install puts it; nothing was done.
    NotNeeded,
    /// The startup file now sources the companion environment file.
    ProfileSourced,
    /// The system-wide executable directory now links to the binary.
    SystemLink,
    /// The per-user executable directory now links to the binary.
    UserLink,
    /// Nothing worked; a warning named the binary.
    Unresolved,
}

/// What became of a line that the startup file is meant to hold.
#[derive(Debug, Clone, Copy, PartialEq, Eq, Structural)]
pub enum ProfileEdit {
    /// The file already held the marker; it was left alone.
    AlreadyPresent,
    /// The line was appended.
    Appended,
    /// The line could not be appended.
    Failed,
}

impl View for Progress<Remedy> {
    type V = ProgressModel<Remedy>;

    open spec fn view(&self) -> ProgressModel<Remedy> {
        match self {
            Progress::Pending(a) => ProgressModel::Pending(a@),
            Progress::Finished(r, at) => ProgressModel::Finished(*r, *at as int),
        }
    }
}

impl View for Progress<ProfileEdit> {
    type V = ProgressModel<ProfileEdit>;

    open spec fn view(&self) -> ProgressModel<ProfileEdit> {
        match self {
            Progress::Pending(a) => ProgressModel::Pending(a@),
            Progress::Finished(e, at) => ProgressModel::Finished(*e, *at as int),
        }
    }
}

/// The marker that tells that the startup file sources the companion environment file.
pub open spec fn env_marker() -> Seq<char> {
    "source $HOME/.cargo/env"@
}

/// The comment that goes above the sourcing line.
pub open spec fn env_comment() -> Seq<char> {
    "# Added by runner-installer for cargo/uv"@
}

/// The marker that tells that the startup file puts the per-user directory on the
/// search path.
pub open spec fn user_bin_marker() -> Seq<char> {
    "export PATH=\"$HOME/bin:$PATH\""@
}

/// The comment that goes above the export line.
pub open spec fn user_bin_comment() -> Seq<char> {
    "# Added by runner-installer for ~/bin"@
}

/// A comment line followed by the marker line.
pub open spec fn block(comment: Seq<char>, marker: Seq<char>) -> Seq<char> {
    comment + seq!['\n'] + marker + seq!['\n']
}

/// The text to append to a startup file so that it holds `marker`: nothing when the
/// file already holds it, the block after a line break when the file holds other
/// text, and the bare block when the file could not be read.
pub open spec fn profile_addition(
    existing: Option<Seq<char>>,
    marker: Seq<char>,
    comment: Seq<char>,
) -> Option<Seq<char>> {
    match existing {
        Some(text) => if contains(text, marker) {
            None
        } else {
            Some(seq!['\n'] + block(comment, marker))
        },
        None => Some(block(comment, marker)),
    }
}

/// The startup file after the host has appended what [`profile_addition`] asks for.
pub open spec fn profile_after(existing: Option<Seq<char>>, marker: Seq<char>, comment: Seq<char>)
    -> Seq<char> {
    let before = match existing {
        Some(text) => text,
        None => Seq::empty(),
    };
    match profile_addition(existing, marker, comment) {
        Some(text) => before + text,
        None => before,
    }
}

/// A text holds whatever stands in its middle.
pub proof fn lemma_contains_middle(before: Seq<char>, marker: Seq<char>, after: Seq<char>)
    ensures
        contains(before + marker + after, marker),
{
    let whole = before + marker + after;
    assert(whole.subrange(before.len() as int, (before.len() + marker.len()) as int) =~= marker);
    assert(occurs_at(whole, before.len() as int, marker));
}

/// Once the addition has been appended the startup file holds the marker, so asking
/// again adds nothing more: a second remediation leaves the file as the first left it.
pub proof fn lemma_profile_addition_is_idempotent(
    existing: Option<Seq<char>>,
    marker: Seq<char>,
    comment: Seq<char>,
)
    ensures
        contains(profile_after(existing, marker, comment), marker),
        profile_addition(Some(profile_after(existing, marker, comment)), marker, comment)
            is None,
        profile_after(Some(profile_after(existing, marker, comment)), marker, comment)
            == profile_after(existing, marker, comment),
{
    let after = profile_after(existing, marker, comment);
    match existing {
        Some(text) => {
            if !contains(text, marker) {
                lemma_contains_middle(text + seq!['\n'] + comment + seq!['\n'], marker, seq!['\n']);
                assert(after =~= text + seq!['\n'] + comment + seq!['\n'] + marker + seq!['\n']);
            }
        },
        None => {
            lemma_contains_middle(comment + seq!['\n'], marker, seq!['\n']);
            assert(after =~= comment + seq!['\n'] + marker + seq!['\n']);
        },
    }
}

/// Whether a marker and the comment above it are well chosen: the marker is not
/// empty, stands on one line, and is no part of the comment.
pub open spec fn well_marked(marker: Seq<char>, comment: Seq<char>) -> bool {
    &&& marker.len() > 0
    &&& lacks(marker, '\n')
    &&& !contains(comment, marker)
}

/// Both markers that remediation writes are well chosen.
pub proof fn lemma_markers_are_well_chosen()
    ensures
        well_marked(env_marker(), env_comment()),
        well_marked(user_bin_marker(), user_bin_comment()),
{
    reveal_strlit("source $HOME/.cargo/env");
    reveal_strlit("# Added by runner-installer for cargo/uv");
    reveal_strlit("export PATH=\"$HOME/bin:$PATH\"");
    reveal_strlit("# Added by runner-installer for ~/bin");
    assert(env_marker()[7] == '$');
    assert(lacks(env_comment(), '$'));
    assert forall|p: int| !occurs_at(env_comment(), p, env_marker()) by {
        if occurs_at(env_comment(), p, env_marker()) {
            let window = env_comment().subrange(p, p + env_marker().len());
            assert(window[7] == env_comment()[p + 7]);
        }
    }
    assert(user_bin_marker()[13] == '$');
    assert(lacks(user_bin_comment(), '$'));
    assert forall|p: int| !occurs_at(user_bin_comment(), p, user_bin_marker()) by {
        if occurs_at(user_bin_comment(), p, user_bin_marker()) {
            let window = user_bin_comment().subrange(p, p + user_bin_marker().len());
            assert(window[13] == user_bin_comment()[p + 13]);
        }
    }
}

/// Where the marker stands in a startup file that was appended to.
pub open spec fn marker_position(existing: Option<Seq<char>>, comment: Seq<char>) -> int {
    match existing {
        Some(text) => (text.len() + 1 + comment.len() + 1) as int,
        None => (comment.len() + 1) as int,
    }
}

/// A startup file that did not hold the marker holds it at exactly one place after
/// remediation: one marker line, not two. With idempotence this holds after any
/// number of remediations.
pub proof fn lemma_marker_stands_exactly_once(
    existing: Option<Seq<char>>,
    marker: Seq<char>,
    comment: Seq<char>,
)
    requires
        well_marked(marker, comment),
        existing is Some ==> !contains(existing->Some_0, marker),
    ensures
        forall|p: int|
            occurs_at(profile_after(existing, marker, comment), p, marker) <==> p
                == marker_position(existing, comment),
{
    let nl = seq!['\n'];
    let before = match existing {
        Some(text) => text + nl,
        None => Seq::<char>::empty(),
    };
    let whole = profile_after(existing, marker, comment);
    let len = marker.len() as int;
    let c0 = before.len() as int;
    let n1 = c0 + comment.len();
    let m0 = n1 + 1;
    let n2 = m0 + len;
    assert(whole =~= before + comment + nl + marker + nl);
    assert(m0 == marker_position(existing, comment));
    assert(whole.subrange(m0, m0 + len) =~= marker);
    assert forall|p: int| occurs_at(whole, p, marker) implies p == m0 by {
        let window = whole.subrange(p, p + len);
        if c0 > 0 && p <= c0 - 1 < p + len {
            assert(window[c0 - 1 - p] == whole[c0 - 1]);
        }
        if p <= n1 < p + len {
            assert(window[n1 - p] == whole[n1]);
        }
        if p <= n2 < p + len {
            assert(window[n2 - p] == whole[n2]);
        }
        if c0 > 0 && p + len <= c0 - 1 {
            let text = existing->Some_0;
            assert(text.subrange(p, p + len) =~= window);
            assert(occurs_at(text, p, marker));
        }
        if c0 <= p && p + len <= n1 {
            assert(comment.subrange(p - c0, p - c0 + len) =~= window);
            assert(occurs_at(comment, p - c0, marker));
        }
    }
}

/// Remediating twice is remediating once: the second time the startup file is left
/// as the first left it, with the marker at exactly one place.
pub proof fn lemma_remediating_twice_leaves_one_marker(
    existing: Option<Seq<char>>,
    marker: Seq<char>,
    comment: Seq<char>,
)
    requires
        well_marked(marker, comment),
        existing is Some ==> !contains(existing->Some_0, marker),
    ensures
        ({
            let once = profile_after(existing, marker, comment);
            let twice = profile_after(Some(once), marker, comment);
            &&& twice == once
            &&& forall|p: int|
                occurs_at(twice, p, marker) <==> p == marker_position(existing, comment)
        }),
{
    lemma_profile_addition_is_idempotent(existing, marker, comment);
    lemma_marker_stands_exactly_once(existing, marker, comment);
}

/// The text of a file that was read, if the outcome holds one.
pub open spec fn contents_of(outcome: OutcomeModel) -> Option<Seq<char>> {
    match outcome {
        OutcomeModel::Contents { text } => Some(text),
        _ => None,
    }
}

/// Making sure the startup file at `path` holds `marker`, by reading it and appending
/// what is missing.
pub open spec fn ensure_line_model(
    path: Seq<char>,
    marker: Seq<char>,
    comment: Seq<char>,
    log: Seq<OutcomeModel>,
    at: int,
) -> ProgressModel<ProfileEdit> {
    if at >= log.len() {
        ProgressModel::Pending(ActionModel::ReadFile { path })
    } else {
        match profile_addition(contents_of(log[at]), marker, comment) {
            None => ProgressModel::Finished(ProfileEdit::AlreadyPresent, at + 1),
            Some(text) => if at + 1 >= log.len() {
                ProgressModel::Pending(ActionModel::AppendFile { path, text })
            } else if log[at + 1].succeeded() {
                ProgressModel::Finished(ProfileEdit::Appended, at + 2)
            } else {
                ProgressModel::Finished(ProfileEdit::Failed, at + 2)
            },
        }
    }
}

/// A startup file that already holds the marker is read and never written.
pub proof fn lemma_marked_profile_is_left_alone(
    path: Seq<char>,
    marker: Seq<char>,
    comment: Seq<char>,
    log: Seq<OutcomeModel>,
    at: int,
)
    requires
        0 <= at < log.len(),
        log[at] is Contents,
        contains(log[at]->Contents_text, marker),
    ensures
        ensure_line_model(path, marker, comment, log, at) == ProgressModel::Finished(
            ProfileEdit::AlreadyPresent,
            at + 1,
        ),
{
}

/// The startup file is written only after it was read and found without the marker,
/// and what is written is an addition that brings the marker.
pub proof fn lemma_append_only_when_marker_is_missing(
    path: Seq<char>,
    marker: Seq<char>,
    comment: Seq<char>,
    log: Seq<OutcomeModel>,
    at: int,
)
    requires
        0 <= at,
        ensure_line_model(path, marker, comment, log, at) is Pending,
        ensure_line_model(path, marker, comment, log, at)->Pending_0 is AppendFile,
    ensures
        at < log.len(),
        log[at] is Contents ==> !contains(log[at]->Contents_text, marker),
        contains(
            ensure_line_model(path, marker, comment, log, at)->Pending_0->AppendFile_text,
            marker,
        ),
        ensure_line_model(path, marker, comment, log, at)->Pending_0->AppendFile_path == path,
{
    lemma_contains_middle(seq!['\n'] + comment + seq!['\n'], marker, seq!['\n']);
    lemma_contains_middle(comment + seq!['\n'], marker, seq!['\n']);
    assert(seq!['\n'] + block(comment, marker) =~= seq!['\n'] + comment + seq!['\n'] + marker
        + seq!['\n']);
    assert(block(comment, marker) =~= comment + seq!['\n'] + marker + seq!['\n']);
}

/// `dir` followed by `rest`.
pub open spec fn under(dir: Seq<char>, rest: Seq<char>) -> Seq<char> {
    dir + rest
}

/// The first fix: where the companion environment file exists, make the startup file
/// source it. Succeeds only when the sourcing line was appended now.
pub open spec fn update_shell_profile_model(home: Seq<char>, log: Seq<OutcomeModel>, at: int)
    -> ProgressModel<bool> {
    if at >= log.len() {
        ProgressModel::Pending(ActionModel::PathExists { path: under(home, "/.cargo/env"@) })
    } else if !log[at].succeeded() {
        ProgressModel::Finished(false, at + 1)
    } else {
        match ensure_line_model(
            under(home, "/.bashrc"@),
            env_marker(),
            env_comment(),
            log,
            at + 1,
        ) {
            ProgressModel::Pending(action) => ProgressModel::Pending(action),
            ProgressModel::Finished(edit, k) => ProgressModel::Finished(
                edit == ProfileEdit::Appended,
                k,
            ),
        }
    }
}

/// The warning that names a binary which could not be made reachable.
pub open spec fn unreachable_warning(name: Seq<char>, binary: Seq<char>) -> Seq<char> {
    "Could not create symlink for "@ + name + " in any PATH directory. "@ + name
        + " may not be accessible without using full path: "@ + binary
}

/// The last resort: a warning that names the binary.
pub open spec fn unresolved_model(
    name: Seq<char>,
    binary: Seq<char>,
    log: Seq<OutcomeModel>,
    at: int,
) -> ProgressModel<Remedy> {
    if at >= log.len() {
        ProgressModel::Pending(
            ActionModel::Log {
                level: LogLevel::Warn,
                message: unreachable_warning(name, binary),
            },
        )
    } else {
        ProgressModel::Finished(Remedy::Unresolved, at + 1)
    }
}

/// The third fix: create the per-user executable directory, link the binary into it
/// and put the directory on the search path in the startup file.
pub open spec fn user_link_model(
    home: Seq<char>,
    name: Seq<char>,
    binary: Seq<char>,
    log: Seq<OutcomeModel>,
    at: int,
) -> ProgressModel<Remedy> {
    if at >= log.len() {
        ProgressModel::Pending(ActionModel::CreateDirAll { path: under(home, "/bin"@) })
    } else if !log[at].succeeded() {
        unresolved_model(name, binary, log, at + 1)
    } else if at + 1 >= log.len() {
        ProgressModel::Pending(
            ActionModel::Symlink { target: binary, link: under(home, "/bin/"@) + name },
        )
    } else if !log[at + 1].succeeded() {
        unresolved_model(name, binary, log, at + 2)
    } else {
        match ensure_line_model(
            under(home, "/.bashrc"@),
            user_bin_marker(),
            user_bin_comment(),
            log,
            at + 2,
        ) {
            ProgressModel::Pending(action) => ProgressModel::Pending(action),
            ProgressModel::Finished(_, k) => ProgressModel::Finished(Remedy::UserLink, k),
        }
    }
}

/// The command that links the binary into the system-wide directory with elevated
/// privileges.
pub open spec fn sudo_link_command(binary: Seq<char>, link: Seq<char>) -> CommandModel {
    elevated("ln"@, seq!["-sf"@, binary, link])
}

/// The second fix: where the system-wide executable directory exists, link the binary
/// into it, directly or else with elevated privileges.
pub open spec fn system_link_model(
    home: Seq<char>,
    name: Seq<char>,
    binary: Seq<char>,
    log: Seq<OutcomeModel>,
    at: int,
) -> ProgressModel<Remedy> {
    let link = "/usr/local/bin/"@ + name;
    if at >= log.len() {
        ProgressModel::Pending(ActionModel::PathExists { path: "/usr/local/bin"@ })
    } else if !log[at].succeeded() {
        user_link_model(home, name, binary, log, at + 1)
    } else if at + 1 >= log.len() {
        ProgressModel::Pending(ActionModel::Symlink { target: binary, link })
    } else if log[at + 1].succeeded() {
        ProgressModel::Finished(Remedy::SystemLink, at + 2)
    } else if at + 2 >= log.len() {
        ProgressModel::Pending(ActionModel::Run(sudo_link_command(binary, link)))
    } else if log[at + 2].succeeded() {
        ProgressModel::Finished(Remedy::SystemLink, at + 3)
    } else {
        user_link_model(home, name, binary, log, at + 3)
    }
}

/// Remediation as a whole, for the binary `name` installed at `binary`, with the
/// user's home directory `home`.
pub open spec fn remediate_model(
    home: Seq<char>,
    name: Seq<char>,
    binary: Seq<char>,
    log: Seq<OutcomeModel>,
    at: int,
) -> ProgressModel<Remedy> {
    if at >= log.len() {
        ProgressModel::Pending(ActionModel::PathExists { path: binary })
    } else if !log[at].succeeded() {
        ProgressModel::Finished(Remedy::NotNeeded, at + 1)
    } else {
        match update_shell_profile_model(home, log, at + 1) {
            ProgressModel::Pending(action) => ProgressModel::Pending(action),
            ProgressModel::Finished(sourced, k) => if sourced {
                ProgressModel::Finished(Remedy::ProfileSourced, k)
            } else {
                system_link_model(home, name, binary, log, k)
            },
        }
    }
}

/// A remediation ends within eleven outcomes, whichever fixes it has to try.
pub proof fn lemma_remediation_ends(
    home: Seq<char>,
    name: Seq<char>,
    binary: Seq<char>,
    log: Seq<OutcomeModel>,
    at: int,
)
    ensures
        ends_within(remediate_model(home, name, binary, log, at), at, 11, log.len() as int),
{
    lemma_fixes_end(home, name, binary, log, at + 1);
    match update_shell_profile_model(home, log, at + 1) {
        ProgressModel::Finished(_, k) => {
            lemma_fixes_end(home, name, binary, log, k);
        },
        _ => {},
    }
}

/// The first fix ends within three outcomes, the second within seven and the third
/// within four.
pub proof fn lemma_fixes_end(
    home: Seq<char>,
    name: Seq<char>,
    binary: Seq<char>,
    log: Seq<OutcomeModel>,
    at: int,
)
    ensures
        ends_within(update_shell_profile_model(home, log, at), at, 3, log.len() as int),
        ends_within(system_link_model(home, name, binary, log, at), at, 7, log.len() as int),
        ends_within(user_link_model(home, name, binary, log, at), at, 4, log.len() as int),
{
}

/// A remediation that has finished stays finished, in the same way, however the log
/// goes on: nothing it did is asked for again.
pub proof fn lemma_remediation_settles(
    home: Seq<char>,
    name: Seq<char>,
    binary: Seq<char>,
    log: Seq<OutcomeModel>,
    longer: Seq<OutcomeModel>,
    at: int,
)
    requires
        continues(longer, log),
        0 <= at <= log.len(),
    ensures
        settled(
            remediate_model(home, name, binary, log, at),
            remediate_model(home, name, binary, longer, at),
            at,
            log.len() as int,
        ),
{
    assert forall|i: int| at <= i < log.len() implies longer[i] == log[i] by {}
    if at < log.len() && log[at].succeeded() {
        lemma_shell_profile_settles(home, log, longer, at + 1);
        match update_shell_profile_model(home, log, at + 1) {
            ProgressModel::Finished(sourced, k) => {
                if !sourced {
                    lemma_system_link_settles(home, name, binary, log, longer, k);
                }
            },
            _ => {},
        }
    }
}

/// Making sure of a line in the startup file, once finished, stays finished in the
/// same way however the log goes on.
pub proof fn lemma_ensure_line_settles(
    path: Seq<char>,
    marker: Seq<char>,
    comment: Seq<char>,
    log: Seq<OutcomeModel>,
    longer: Seq<OutcomeModel>,
    at: int,
)
    requires
        continues(longer, log),
        0 <= at <= log.len(),
    ensures
        settled(
            ensure_line_model(path, marker, comment, log, at),
            ensure_line_model(path, marker, comment, longer, at),
            at,
            log.len() as int,
        ),
{
    if at < log.len() {
        assert(longer[at] == log[at]);
        if at + 1 < log.len() {
            assert(longer[at + 1] == log[at + 1]);
        }
    }
}

/// The first fix, once finished, stays finished in the same way however the log goes on.
pub proof fn lemma_shell_profile_settles(
    home: Seq<char>,
    log: Seq<OutcomeModel>,
    longer: Seq<OutcomeModel>,
    at: int,
)
    requires
        continues(longer, log),
        0 <= at <= log.len(),
    ensures
        settled(
            update_shell_profile_model(home, log, at),
            update_shell_profile_model(home, longer, at),
            at,
            log.len() as int,
        ),
{
    if at < log.len() {
        assert(longer[at] == log[at]);
        if log[at].succeeded() {
            lemma_ensure_line_settles(
                under(home, "/.bashrc"@),
                env_marker(),
                env_comment(),
                log,
                longer,
                at + 1,
            );
        }
    }
}

/// The third fix, once finished, stays finished in the same way however the log goes on.
pub proof fn lemma_user_link_settles(
    home: Seq<char>,
    name: Seq<char>,
    binary: Seq<char>,
    log: Seq<OutcomeModel>,
    longer: Seq<OutcomeModel>,
    at: int,
)
    requires
        continues(longer, log),
        0 <= at <= log.len(),
    ensures
        settled(
            user_link_model(home, name, binary, log, at),
            user_link_model(home, name, binary, longer, at),
            at,
            log.len() as int,
        ),
{
    if at < log.len() {
        assert(longer[at] == log[at]);
        if at + 1 < log.len() {
            assert(longer[at + 1] == log[at + 1]);
            if at + 2 < log.len() {
                assert(longer[at + 2] == log[at + 2]);
            }
            if log[at].succeeded() && log[at + 1].succeeded() {
                lemma_ensure_line_settles(
                    under(home, "/.bashrc"@),
                    user_bin_marker(),
                    user_bin_comment(),
                    log,
                    longer,
                    at + 2,
                );
            }
        }
    }
}

/// The second fix, once finished, stays finished in the same way however the log goes on.
pub proof fn lemma_system_link_settles(
    home: Seq<char>,
    name: Seq<char>,
    binary: Seq<char>,
    log: Seq<OutcomeModel>,
    longer: Seq<OutcomeModel>,
    at: int,
)
    requires
        continues(longer, log),
        0 <= at <= log.len(),
    ensures
        settled(
            system_link_model(home, name, binary, log, at),
            system_link_model(home, name, binary, longer, at),
            at,
            log.len() as int,
        ),
{
    if at < log.len() {
        assert(longer[at] == log[at]);
        if !log[at].succeeded() {
            lemma_user_link_settles(home, name, binary, log, longer, at + 1);
        } else if at + 1 < log.len() {
            assert(longer[at + 1] == log[at + 1]);
            if !log[at + 1].succeeded() && at + 2 < log.len() {
                assert(longer[at + 2] == log[at + 2]);
                if !log[at + 2].succeeded() {
                    lemma_user_link_settles(home, name, binary, log, longer, at + 3);
                }
            }
        }
    }
}

/// The character sequence of an optional text.
pub open spec fn opt_text(t: Option<&str>) -> Option<Seq<char>> {
    match t {
        Some(s) => Some(s@),
        None => None,
    }
}

/// Computes the text to append to a startup file so that it holds `marker`.
pub fn addition_for(existing: Option<&str>, marker: &str, comment: &str) -> (text: Option<String>)
    ensures
        match profile_addition(opt_text(existing), marker@, comment@) {
            Some(t) => text is Some && text->Some_0@ == t,
            None => text is None,
        },
{
    proof {
        reveal_strlit("\n");
    }
    match existing {
        Some(text) => {
            if text_contains(text, marker) {
                None
            } else {
                let added = String::from_str("\n").concat(comment).concat("\n").concat(
                    marker,
                ).concat("\n");
                assert(added@ =~= seq!['\n'] + block(comment@, marker@));
                Some(added)
            }
        },
        None => {
            let added = String::from_str(comment).concat("\n").concat(marker).concat("\n");
            assert(added@ =~= block(comment@, marker@));
            Some(added)
        },
    }
}

/// Makes sure the startup file at `path` holds `marker`.
pub fn ensure_line(path: &str, marker: &str, comment: &str, log: &Vec<Outcome>, at: usize) -> (r:
    Progress<ProfileEdit>)
    ensures
        r@ == ensure_line_model(path@, marker@, comment@, log.deep_view(), at as int),
{
    if at >= log.len() {
        return Progress::Pending(Action::ReadFile { path: String::from_str(path) });
    }
    let existing: Option<&str> = match &log[at] {
        Outcome::Contents { text } => Some(text.as_str()),
        _ => None,
    };
    assert(opt_text(existing) == contents_of(log.deep_view()[at as int]));
    match addition_for(existing, marker, comment) {
        None => Progress::Finished(ProfileEdit::AlreadyPresent, at + 1),
        Some(text) => {
            if at + 1 >= log.len() {
                Progress::Pending(Action::AppendFile { path: String::from_str(path), text })
            } else if log[at + 1].succeeded() {
                Progress::Finished(ProfileEdit::Appended, at + 2)
            } else {
                Progress::Finished(ProfileEdit::Failed, at + 2)
            }
        },
    }
}

/// Joins a directory and what follows it.
pub fn path_under(dir: &str, rest: &str) -> (path: String)
    ensures
        path@ == under(dir@, rest@),
{
    String::from_str(dir).concat(rest)
}

/// The first fix: makes the startup file source the companion environment file.
pub fn update_shell_profile(home: &str, log: &Vec<Outcome>, at: usize) -> (r: Progress<bool>)
    ensures
        r@ == update_shell_profile_model(home@, log.deep_view(), at as int),
{
    if at >= log.len() {
        return Progress::Pending(Action::PathExists { path: path_under(home, "/.cargo/env") });
    }
    if !log[at].succeeded() {
        return Progress::Finished(false, at + 1);
    }
    let bashrc = path_under(home, "/.bashrc");
    match ensure_line(
        bashrc.as_str(),
        "source $HOME/.cargo/env",
        "# Added by runner-installer for cargo/uv",
        log,
        at + 1,
    ) {
        Progress::Pending(action) => Progress::Pending(action),
        Progress::Finished(edit, k) => Progress::Finished(edit == ProfileEdit::Appended, k),
    }
}

/// The last resort: warns that the binary could not be made reachable.
pub fn unresolved(name: &str, binary: &str, log: &Vec<Outcome>, at: usize) -> (r: Progress<Remedy>)
    ensures
        r@ == unresolved_model(name@, binary@, log.deep_view(), at as int),
{
    if at >= log.len() {
        let message = String::from_str("Could not create symlink for ").concat(name).concat(
            " in any PATH directory. ",
        ).concat(name).concat(" may not be accessible without using full path: ").concat(
            binary,
        );
        return Progress::Pending(Action::Log { level: LogLevel::Warn, message });
    }
    Progress::Finished(Remedy::Unresolved, at + 1)
}

/// The third fix: links the binary into the per-user executable directory and puts
/// that directory on the search path.
pub fn add_user_bin_to_path(home: &str, name: &str, binary: &str, log: &Vec<Outcome>, at: usize)
    -> (r: Progress<Remedy>)
    ensures
        r@ == user_link_model(home@, name@, binary@, log.deep_view(), at as int),
{
    if at >= log.len() {
        return Progress::Pending(Action::CreateDirAll { path: path_under(home, "/bin") });
    }
    if !log[at].succeeded() {
        return unresolved(name, binary, log, at + 1);
    }
    if at + 1 >= log.len() {
        return Progress::Pending(
            Action::Symlink {
                target: String::from_str(binary),
                link: path_under(home, "/bin/").concat(name),
            },
        );
    }
    if !log[at + 1].succeeded() {
        return unresolved(name, binary, log, at + 2);
    }
    let bashrc = path_under(home, "/.bashrc");
    match ensure_line(
        bashrc.as_str(),
        "export PATH=\"$HOME/bin:$PATH\"",
        "# Added by runner-installer for ~/bin",
        log,
        at + 2,
    ) {
        Progress::Pending(action) => Progress::Pending(action),
        Progress::Finished(_, k) => Progress::Finished(Remedy::UserLink, k),
    }
}

/// The second fix: links the binary into the system-wide executable directory.
pub fn link_system_wide(home: &str, name: &str, binary: &str, log: &Vec<Outcome>, at: usize) -> (r:
    Progress<Remedy>)
    ensures
        r@ == system_link_model(home@, name@, binary@, log.deep_view(), at as int),
{
    if at >= log.len() {
        return Progress::Pending(Action::PathExists { path: String::from_str("/usr/local/bin") });
    }
    if !log[at].succeeded() {
        return add_user_bin_to_path(home, name, binary, log, at + 1);
    }
    let link = String::from_str("/usr/local/bin/").concat(name);
    if at + 1 >= log.len() {
        return Progress::Pending(Action::Symlink { target: String::from_str(binary), link });
    }
    if log[at + 1].succeeded() {
        return Progress::Finished(Remedy::SystemLink, at + 2);
    }
    if at + 2 >= log.len() {
        let cmd = sudo("ln", &["-sf", binary, link.as_str()]);
        assert(cmd@.args =~= seq!["ln"@] + seq!["-sf"@, binary@, link@]);
        return Progress::Pending(Action::Run(cmd));
    }
    if log[at + 2].succeeded() {
        return Progress::Finished(Remedy::SystemLink, at + 3);
    }
    add_user_bin_to_path(home, name, binary, log, at + 3)
}

/// Makes the binary `name`, installed at `binary`, reachable from the shell of the
/// user whose home directory is `home`. Best effort: there is no error to report.
pub fn remediate(home: &str, name: &str, binary: &str, log: &Vec<Outcome>, at: usize) -> (r:
    Progress<Remedy>)
    ensures
        r@ == remediate_model(home@, name@, binary@, log.deep_view(), at as int),
{
    if at >= log.len() {
        return Progress::Pending(Action::PathExists { path: String::from_str(binary) });
    }
    if !log[at].succeeded() {
        return Progress::Finished(Remedy::NotNeeded, at + 1);
    }
    match update_shell_profile(home, log, at + 1) {
        Progress::Pending(action) => Progress::Pending(action),
        Progress::Finished(sourced, k) => {
            if sourced {
                Progress::Finished(Remedy::ProfileSourced, k)
            } else {
                link_system_wide(home, name, binary, log, k)
            }
        },
    }
}

} // verus!
