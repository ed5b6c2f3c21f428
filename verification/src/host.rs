//! The boundary between the installer core and the machine it runs on.
//!
//! The core never touches the machine. It hands the host one [`Action`] at a time and
//! reads back one [`Outcome`] per action; the outcomes reported so far form the log that
//! every procedure of the library is a function of.

use vstd::prelude::*;

verus! {

/// A program to run together with its arguments.
#[derive(Debug, Clone, PartialEq, Eq)]
pub struct Command {
    pub program: String,
    pub args: Vec<String>,
}

/// Mathematical value of a [`Command`].
pub struct CommandModel {
    pub program: Seq<char>,
    pub args: Seq<Seq<char>>,
}

impl View for Command {
    type V = CommandModel;

    open spec fn view(&self) -> CommandModel {
        CommandModel { program: self.program@, args: self.args.deep_view() }
    }
}

impl DeepView for Command {
    type V = CommandModel;

    open spec fn deep_view(&self) -> CommandModel {
        self@
    }
}

/// The character sequences of a list of string slices.
pub open spec fn texts(items: Seq<&str>) -> Seq<Seq<char>> {
    Seq::new(items.len(), |i: int| items[i]@)
}

impl Command {
    /// Builds a command from a program name and its arguments.
    pub fn new(program: &str, args: &[&str]) -> (cmd: Command)
        ensures
            cmd@ == (CommandModel { program: program@, args: texts(args@) }),
    {
        let mut owned: Vec<String> = Vec::new();
        let n: usize = args.len();
        let mut i: usize = 0;
        while i < n
            invariant
                n == args@.len(),
                i <= n,
                owned@.len() == i,
                forall|j: int| 0 <= j < i ==> (#[trigger] owned@[j])@ == args@[j]@,
            decreases n - i,
        {
            owned.push(String::from_str(args[i]));
            i += 1;
        }
        assert(owned.deep_view() =~= texts(args@));
        Command { program: String::from_str(program), args: owned }
    }

    /// A copy of this command.
    pub fn duplicate(&self) -> (copy: Command)
        ensures
            copy@ == self@,
    {
        let mut args: Vec<String> = Vec::new();
        let n: usize = self.args.len();
        let mut i: usize = 0;
        while i < n
            invariant
                n == self.args@.len(),
                i <= n,
                args@.len() == i,
                forall|j: int| 0 <= j < i ==> (#[trigger] args@[j])@ == self.args@[j]@,
            decreases n - i,
        {
            args.push(self.args[i].clone());
            i += 1;
        }
        assert(args.deep_view() =~= self.args.deep_view());
        Command { program: self.program.clone(), args }
    }
}

/// The command line of a command: the program, then each argument after a space.
pub open spec fn command_line(cmd: CommandModel) -> Seq<char> {
    cmd.program + spaced(cmd.args)
}

/// Every item preceded by one space.
pub open spec fn spaced(items: Seq<Seq<char>>) -> Seq<char>
    decreases items.len(),
{
    if items.len() == 0 {
        Seq::empty()
    } else {
        spaced(items.drop_last()) + seq![' '] + items.last()
    }
}

impl Command {
    /// The command line: the program, then each argument after a space.
    pub fn line(&self) -> (text: String)
        ensures
            text@ == command_line(self@),
    {
        let mut text: String = String::from_str(self.program.as_str());
        let n: usize = self.args.len();
        let mut i: usize = 0;
        proof {
            reveal_strlit(" ");
        }
        while i < n
            invariant
                n == self.args@.len(),
                i <= n,
                " "@ == seq![' '],
                text@ == self.program@ + spaced(self.args.deep_view().subrange(0, i as int)),
            decreases n - i,
        {
            proof {
                let next = self.args.deep_view().subrange(0, i + 1);
                assert(next.drop_last() =~= self.args.deep_view().subrange(0, i as int));
                assert(next.last() == self.args@[i as int]@);
            }
            text.append(" ");
            text.append(self.args[i].as_str());
            i += 1;
        }
        assert(self.args.deep_view().subrange(0, n as int) =~= self.args.deep_view());
        text
    }
}

/// How loudly a message is reported.
#[derive(Debug, Clone, Copy, PartialEq, Eq, Structural)]
pub enum LogLevel {
    Info,
    Warn,
}

/// One request to the host.
#[derive(Debug, Clone, PartialEq, Eq)]
pub enum Action {
    /// Start the program, wait for it to exit and capture what it printed.
    Run(Command),
    /// Tell whether anything exists at `path`.
    PathExists { path: String },
    /// Read the whole file at `path` as text.
    ReadFile { path: String },
    /// Append `text` to the file at `path`, creating the file if it is absent.
    AppendFile { path: String, text: String },
    /// Create a symbolic link at `link` that points to `target`.
    Symlink { target: String, link: String },
    /// Create the directory `path` and any missing parent.
    CreateDirAll { path: String },
    /// Report `message` to the operator.
    Log { level: LogLevel, message: String },
}

/// Mathematical value of an [`Action`].
pub enum ActionModel {
    Run(CommandModel),
    PathExists { path: Seq<char> },
    ReadFile { path: Seq<char> },
    AppendFile { path: Seq<char>, text: Seq<char> },
    Symlink { target: Seq<char>, link: Seq<char> },
    CreateDirAll { path: Seq<char> },
    Log { level: LogLevel, message: Seq<char> },
}

impl View for Action {
    type V = ActionModel;

    open spec fn view(&self) -> ActionModel {
        match self {
            Action::Run(cmd) => ActionModel::Run(cmd@),
            Action::PathExists { path } => ActionModel::PathExists { path: path@ },
            Action::ReadFile { path } => ActionModel::ReadFile { path: path@ },
            Action::AppendFile { path, text } => ActionModel::AppendFile {
                path: path@,
                text: text@,
            },
            Action::Symlink { target, link } => ActionModel::Symlink {
                target: target@,
                link: link@,
            },
            Action::CreateDirAll { path } => ActionModel::CreateDirAll { path: path@ },
            Action::Log { level, message } => ActionModel::Log {
                level: *level,
                message: message@,
            },
        }
    }
}

/// What the host reports back for one [`Action`].
#[derive(Debug, Clone, PartialEq, Eq)]
pub enum Outcome {
    /// The program ran and exited; `code` is absent when a signal ended it.
    Exited { code: Option<i32>, stdout: String, stderr: String },
    /// The request could not be carried out, or a queried path does not exist.
    Failed { reason: String },
    /// The program outlived the time it was allowed and was killed.
    TimedOut,
    /// The request was carried out, or a queried path exists.
    Done,
    /// The text of a file that was read.
    Contents { text: String },
}

/// Mathematical value of an [`Outcome`].
pub enum OutcomeModel {
    Exited { code: Option<i32>, stdout: Seq<char>, stderr: Seq<char> },
    Failed { reason: Seq<char> },
    TimedOut,
    Done,
    Contents { text: Seq<char> },
}

impl OutcomeModel {
    /// An outcome counts as a success when the program exited with status zero, or when
    /// a request other than running a program was carried out.
    pub open spec fn succeeded(self) -> bool {
        match self {
            OutcomeModel::Exited { code, .. } => code == Some(0i32),
            OutcomeModel::Failed { .. } => false,
            OutcomeModel::TimedOut => false,
            OutcomeModel::Done => true,
            OutcomeModel::Contents { .. } => true,
        }
    }

    /// Whether the request was carried out to its end, whatever its exit status.
    pub open spec fn completed(self) -> bool {
        !(self is Failed) && !(self is TimedOut)
    }

    /// The exit status, where a program ran and exited on its own.
    pub open spec fn exit_status(self) -> Option<i32> {
        match self {
            OutcomeModel::Exited { code, .. } => code,
            _ => None,
        }
    }

    /// What the program printed to its standard output; empty for any other outcome.
    pub open spec fn stdout(self) -> Seq<char> {
        match self {
            OutcomeModel::Exited { stdout, .. } => stdout,
            _ => Seq::empty(),
        }
    }

    /// The diagnostic text: standard error of a program, the reason of a failure, or
    /// the plain statement that the time ran out.
    pub open spec fn diagnostics(self) -> Seq<char> {
        match self {
            OutcomeModel::Exited { stderr, .. } => stderr,
            OutcomeModel::Failed { reason } => reason,
            OutcomeModel::TimedOut => "timed out"@,
            _ => Seq::empty(),
        }
    }
}

impl View for Outcome {
    type V = OutcomeModel;

    open spec fn view(&self) -> OutcomeModel {
        match self {
            Outcome::Exited { code, stdout, stderr } => OutcomeModel::Exited {
                code: *code,
                stdout: stdout@,
                stderr: stderr@,
            },
            Outcome::Failed { reason } => OutcomeModel::Failed { reason: reason@ },
            Outcome::TimedOut => OutcomeModel::TimedOut,
            Outcome::Done => OutcomeModel::Done,
            Outcome::Contents { text } => OutcomeModel::Contents { text: text@ },
        }
    }
}

impl DeepView for Outcome {
    type V = OutcomeModel;

    open spec fn deep_view(&self) -> OutcomeModel {
        self@
    }
}

impl Outcome {
    /// Whether the outcome counts as a success.
    pub fn succeeded(&self) -> (ok: bool)
        ensures
            ok == self@.succeeded(),
    {
        match self {
            Outcome::Exited { code, .. } => match code {
                Some(c) => *c == 0,
                None => false,
            },
            Outcome::Failed { .. } => false,
            Outcome::TimedOut => false,
            Outcome::Done => true,
            Outcome::Contents { .. } => true,
        }
    }

    /// Whether the request was carried out to its end.
    pub fn completed(&self) -> (done: bool)
        ensures
            done == self@.completed(),
    {
        match self {
            Outcome::Failed { .. } => false,
            Outcome::TimedOut => false,
            _ => true,
        }
    }

    /// The exit status, where a program ran and exited on its own.
    pub fn exit_status(&self) -> (code: Option<i32>)
        ensures
            code == self@.exit_status(),
    {
        match self {
            Outcome::Exited { code, .. } => *code,
            _ => None,
        }
    }

    /// What the program printed to its standard output; empty for any other outcome.
    pub fn stdout(&self) -> (out: &str)
        ensures
            out@ == self@.stdout(),
    {
        proof {
            reveal_strlit("");
        }
        match self {
            Outcome::Exited { stdout, .. } => stdout.as_str(),
            _ => "",
        }
    }

    /// The diagnostic text: standard error of a program, the reason of a failure, or
    /// the plain statement that the time ran out.
    pub fn diagnostics(&self) -> (out: &str)
        ensures
            out@ == self@.diagnostics(),
    {
        proof {
            reveal_strlit("");
        }
        match self {
            Outcome::Exited { stderr, .. } => stderr.as_str(),
            Outcome::Failed { reason } => reason.as_str(),
            Outcome::TimedOut => "timed out",
            _ => "",
        }
    }
}

} // verus!
