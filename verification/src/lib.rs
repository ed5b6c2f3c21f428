//! Installation orchestration core for provisioning named software features on a worker machine.
//!
//! The library decides; the host acts. Every procedure here is a pure function of the
//! outcomes the host has reported so far, and answers with the next request for the host
//! or with its final result. A run is driven like this: start with an empty log, ask
//! [`FeatureInstaller::install_features`] for the next step, perform the action it names,
//! append the outcome to the log, and ask again until the step is a report.

pub mod config;
pub mod error;
pub mod features;
pub mod host;
pub mod installer;
pub mod os;
pub mod package_managers;
pub mod progress;
pub mod remediation;
pub mod text;

pub use crate::config::InstallerConfig;
pub use crate::error::InstallError;
pub use crate::installer::{FeatureInstaller, FeatureOutcome, LifecycleState, RunReport, Step};
