//! Why an installation run or one of its steps did not succeed.

use vstd::prelude::*;
use crate::host::{Command, command_line, CommandModel, Outcome, OutcomeModel};

verus! {

/// The failures that the installer reports.
#[derive(Debug, Clone, PartialEq, Eq)]
pub enum InstallError {
    /// No backend or install strategy exists for the host platform.
    UnsupportedPlatform,
    /// The requested name stands for no known feature.
    UnknownFeature { name: String },
    /// A command did not run to a successful exit.
    CommandFailed { command: String, exit_status: Option<i32>, stderr: String },
    /// The feature is still not usable after its installation.
    VerificationFailed { feature: String },
}

/// Mathematical value of an [`InstallError`].
pub enum ErrorModel {
    UnsupportedPlatform,
    UnknownFeature { name: Seq<char> },
    CommandFailed { command: Seq<char>, exit_status: Option<i32>, stderr: Seq<char> },
    VerificationFailed { feature: Seq<char> },
}

impl ErrorModel {
    /// The text shown to the operator for this error.
    pub open spec fn message(self) -> Seq<char> {
        match self {
            ErrorModel::UnsupportedPlatform => "Unsupported operating system"@,
            ErrorModel::UnknownFeature { name } => "Unknown feature: "@ + name,
            ErrorModel::CommandFailed { command, .. } => "Command failed: "@ + command,
            ErrorModel::VerificationFailed { feature } => feature
                + " installation verification failed"@,
        }
    }
}

impl View for InstallError {
    type V = ErrorModel;

    open spec fn view(&self) -> ErrorModel {
        match self {
            InstallError::UnsupportedPlatform => ErrorModel::UnsupportedPlatform,
            InstallError::UnknownFeature { name } => ErrorModel::UnknownFeature { name: name@ },
            InstallError::CommandFailed { command, exit_status, stderr } => {
                ErrorModel::CommandFailed {
                    command: command@,
                    exit_status: *exit_status,
                    stderr: stderr@,
                }
            },
            InstallError::VerificationFailed { feature } => ErrorModel::VerificationFailed {
                feature: feature@,
            },
        }
    }
}

impl InstallError {
    /// A copy of this error.
    pub fn duplicate(&self) -> (copy: InstallError)
        ensures
            copy@ == self@,
    {
        match self {
            InstallError::UnsupportedPlatform => InstallError::UnsupportedPlatform,
            InstallError::UnknownFeature { name } => InstallError::UnknownFeature {
                name: name.clone(),
            },
            InstallError::CommandFailed { command, exit_status, stderr } => {
                InstallError::CommandFailed {
                    command: command.clone(),
                    exit_status: *exit_status,
                    stderr: stderr.clone(),
                }
            },
            InstallError::VerificationFailed { feature } => InstallError::VerificationFailed {
                feature: feature.clone(),
            },
        }
    }

    /// The text shown to the operator for this error.
    pub fn message(&self) -> (text: String)
        ensures
            text@ == self@.message(),
    {
        match self {
            InstallError::UnsupportedPlatform => String::from_str("Unsupported operating system"),
            InstallError::UnknownFeature { name } => String::from_str("Unknown feature: ").concat(
                name.as_str(),
            ),
            InstallError::CommandFailed { command, .. } => String::from_str(
                "Command failed: ",
            ).concat(command.as_str()),
            InstallError::VerificationFailed { feature } => String::from_str(
                feature.as_str(),
            ).concat(" installation verification failed"),
        }
    }
}

/// The error that stands for a command whose outcome was not a success.
pub open spec fn command_failure(cmd: CommandModel, outcome: OutcomeModel) -> ErrorModel {
    ErrorModel::CommandFailed {
        command: command_line(cmd),
        exit_status: outcome.exit_status(),
        stderr: outcome.diagnostics(),
    }
}

impl Command {
    /// The error that stands for this command when `outcome` was not a success.
    pub fn failure(&self, outcome: &Outcome) -> (err: InstallError)
        ensures
            err@ == command_failure(self@, outcome@),
    {
        InstallError::CommandFailed {
            command: self.line(),
            exit_status: outcome.exit_status(),
            stderr: String::from_str(outcome.diagnostics()),
        }
    }
}

/// The result of a procedure that either succeeds or reports an [`InstallError`].
pub type Verdict = Result<(), InstallError>;

/// Mathematical value of a [`Verdict`].
pub open spec fn verdict_model(v: Verdict) -> Result<(), ErrorModel> {
    match v {
        Ok(_) => Ok(()),
        Err(e) => Err(e@),
    }
}

} // verus!
