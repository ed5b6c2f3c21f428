//! Settings of an installation run.

use vstd::prelude::*;

verus! {

/// Settings of an installation run, loaded once and read-only afterwards.
#[derive(Debug, Clone, Copy, PartialEq, Eq, Structural)]
pub struct InstallerConfig {
    /// Whether the run stops at the first feature that fails.
    pub fail_fast: bool,
    /// Time allowed for one command, in seconds. The host enforces it.
    pub timeout: u64,
    /// Whether package lists are refreshed before installing.
    pub update_packages: bool,
}

impl Default for InstallerConfig {
    /// Stop at the first failure, allow five minutes per command, refresh package lists.
    fn default() -> (config: Self)
        ensures
            config == (InstallerConfig { fail_fast: true, timeout: 300, update_packages: true }),
    {
        InstallerConfig { fail_fast: true, timeout: 300, update_packages: true }
    }
}

} // verus!
