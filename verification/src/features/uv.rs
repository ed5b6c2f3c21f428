//! uv: the Python package installer and resolver.
//!
//! The install falls back through tiers. Where the platform's backend carries the
//! package it is tried first; when it fails, the vendor's standalone installer script
//! takes over, and after it the binary is made reachable from the shell. Only the last
//! tier's error can surface.

use vstd::prelude::*;
use crate::error::{ErrorModel, InstallError, Verdict};
use crate::features::{Feature, lemma_version_check_settles, version_check, version_check_model};
use crate::host::{Action, ActionModel, Command, CommandModel, Outcome, OutcomeModel};
use crate::os::{OsFamily, OsInfo, OsModel};
use crate::package_managers::{BackendKind, install_command, PackageManager};
use crate::progress::{
    and_then, any_succeeds, any_succeeds_model, best_effort, best_effort_model, continues,
    ends_within, first_existing, first_existing_model, lemma_first_existing_ends,
    lemma_first_existing_settles, lemma_run_all_ends, lemma_run_all_settles,
    lemma_single_steps_settle, or_else, Progress, ProgressModel, run_all, run_all_model, settled,
    VerdictProgress,
};
use crate::remediation::{
    add_user_bin_to_path, lemma_remediation_ends, lemma_remediation_settles, path_under, remediate,
    remediate_model, Remedy, under, update_shell_profile, update_shell_profile_model,
    user_link_model,
};
use crate::text::text_eq;

verus! {

/// The command that asks `program` for its version.
pub open spec fn version_of(program: Seq<char>) -> CommandModel {
    CommandModel { program, args: seq!["--version"@] }
}

/// The command that asks `program` for its usage.
pub open spec fn help_of(program: Seq<char>) -> CommandModel {
    CommandModel { program, args: seq!["--help"@] }
}

/// Where a standalone install puts the binary.
pub open spec fn uv_binary(home: Seq<char>) -> Seq<char> {
    under(home, "/.cargo/bin/uv"@)
}

/// The places where the binary is commonly found, in the order they are tried.
pub open spec fn uv_paths(home: Seq<char>) -> Seq<Seq<char>> {
    seq![uv_binary(home), "/usr/local/bin/uv"@, "/usr/bin/uv"@]
}

/// The version commands of the probe: the binary on the search path first, then each
/// of the common places.
pub open spec fn uv_probe_commands(home: Seq<char>) -> Seq<CommandModel> {
    seq![
        version_of("uv"@),
        version_of(uv_binary(home)),
        version_of("/usr/local/bin/uv"@),
        version_of("/usr/bin/uv"@),
    ]
}

/// Whether the platform's backend is known to carry the package: Homebrew and
/// Chocolatey do, and so does APT on Debian and Ubuntu.
pub open spec fn backend_carries_uv(os: OsModel) -> bool {
    match os.family {
        OsFamily::Linux => os.name == "ubuntu"@ || os.name == "debian"@,
        OsFamily::Windows => true,
        OsFamily::MacOs => true,
        OsFamily::Unknown => false,
    }
}

/// How the package is named for the platform's backend.
pub open spec fn uv_package(family: OsFamily) -> Seq<char> {
    match family {
        OsFamily::Windows => "uv --version 0.4.29"@,
        OsFamily::MacOs => "uv@0.4.29"@,
        _ => "uv"@,
    }
}

/// A shell pipeline.
pub open spec fn shell(script: Seq<char>) -> CommandModel {
    CommandModel { program: "sh"@, args: seq!["-c"@, script] }
}

/// The command that tells whether `curl` is available.
pub open spec fn curl_check_command() -> CommandModel {
    version_of("curl"@)
}

/// The pipeline that fetches and runs the installer script, with `curl` where it is
/// available and with `wget` otherwise.
pub open spec fn installer_script(curl_available: bool) -> Seq<char> {
    if curl_available {
        "curl -LsSf https://astral.sh/uv/0.4.29/install.sh | sh"@
    } else {
        "wget -qO- https://astral.sh/uv/0.4.29/install.sh | sh"@
    }
}

/// The command that fetches and runs the installer script on Windows.
pub open spec fn windows_installer_command() -> CommandModel {
    CommandModel {
        program: "powershell"@,
        args: seq![
            "-ExecutionPolicy"@,
            "ByPass"@,
            "-c"@,
            "irm https://astral.sh/uv/0.4.29/install.ps1 | iex"@,
        ],
    }
}

/// Remediation after a standalone install: whatever comes of it, the install stands.
pub open spec fn ensure_in_path_model(home: Seq<char>, log: Seq<OutcomeModel>, at: int)
    -> VerdictProgress {
    match remediate_model(home, "uv"@, uv_binary(home), log, at) {
        ProgressModel::Pending(action) => ProgressModel::Pending(action),
        ProgressModel::Finished(_, k) => ProgressModel::Finished(Ok(()), k),
    }
}

/// The standalone tier on Unix: the installer script must succeed; remediation follows.
pub open spec fn standalone_model(home: Seq<char>, log: Seq<OutcomeModel>, at: int)
    -> VerdictProgress {
    if at >= log.len() {
        ProgressModel::Pending(ActionModel::Run(curl_check_command()))
    } else {
        and_then(
            run_all_model(seq![shell(installer_script(log[at].succeeded()))], log, at + 1),
            |k: int| ensure_in_path_model(home, log, k),
        )
    }
}

/// The standalone tier on Windows: the installer script must succeed.
pub open spec fn standalone_windows_model(log: Seq<OutcomeModel>, at: int) -> VerdictProgress {
    run_all_model(seq![windows_installer_command()], log, at)
}

/// The backend tier: the package, installed through the platform's backend.
pub open spec fn backend_tier_model(
    family: OsFamily,
    backend: BackendKind,
    log: Seq<OutcomeModel>,
    at: int,
) -> VerdictProgress {
    run_all_model(seq![install_command(backend, uv_package(family))], log, at)
}

/// The standalone tier that fits the platform.
pub open spec fn standalone_tier_model(
    family: OsFamily,
    home: Seq<char>,
    log: Seq<OutcomeModel>,
    at: int,
) -> VerdictProgress {
    if family == OsFamily::Windows {
        standalone_windows_model(log, at)
    } else {
        standalone_model(home, log, at)
    }
}

/// Installing uv once the probe has found it absent. An unknown family is an error.
/// Where the backend carries the package, the backend tier comes first and the
/// standalone tier is its fallback; elsewhere the standalone tier is the only one.
pub open spec fn uv_strategy(
    os: OsModel,
    home: Seq<char>,
    backend: BackendKind,
    log: Seq<OutcomeModel>,
    at: int,
) -> VerdictProgress {
    if os.family == OsFamily::Unknown {
        ProgressModel::Finished(Err(ErrorModel::UnsupportedPlatform), at)
    } else if backend_carries_uv(os) {
        or_else(
            backend_tier_model(os.family, backend, log, at),
            |k: int| standalone_tier_model(os.family, home, log, k),
        )
    } else {
        standalone_tier_model(os.family, home, log, at)
    }
}

/// The checks of a verification: the binary is located, asked for its version, and
/// its usage output serves as the smoke test.
pub open spec fn uv_checks(home: Seq<char>, log: Seq<OutcomeModel>, at: int) -> VerdictProgress {
    match first_existing_model(uv_paths(home), "uv"@, log, at) {
        ProgressModel::Pending(action) => ProgressModel::Pending(action),
        ProgressModel::Finished(program, k) => and_then(
            version_check_model("uv"@, version_of(program), log, k),
            |j: int| best_effort_model(help_of(program), "uv does not print its usage"@, log, j),
        ),
    }
}

/// When the backend tier and the standalone tier both fail, the install reports the
/// standalone tier's error and not the backend's.
pub proof fn lemma_uv_reports_last_tier(
    os: OsModel,
    home: Seq<char>,
    backend: BackendKind,
    log: Seq<OutcomeModel>,
    at: int,
)
    requires
        os.family != OsFamily::Unknown,
        backend_carries_uv(os),
        backend_tier_model(os.family, backend, log, at) is Finished,
        backend_tier_model(os.family, backend, log, at)->Finished_0 is Err,
        standalone_tier_model(
            os.family,
            home,
            log,
            backend_tier_model(os.family, backend, log, at)->Finished_1,
        ) is Finished,
        standalone_tier_model(
            os.family,
            home,
            log,
            backend_tier_model(os.family, backend, log, at)->Finished_1,
        )->Finished_0 is Err,
    ensures
        uv_strategy(os, home, backend, log, at) == standalone_tier_model(
            os.family,
            home,
            log,
            backend_tier_model(os.family, backend, log, at)->Finished_1,
        ),
{
}

/// A failure of the backend tier alone never fails the install: when the standalone
/// tier then succeeds, so does the install.
pub proof fn lemma_uv_recovers_from_backend_failure(
    os: OsModel,
    home: Seq<char>,
    backend: BackendKind,
    log: Seq<OutcomeModel>,
    at: int,
)
    requires
        os.family != OsFamily::Unknown,
        backend_carries_uv(os),
        backend_tier_model(os.family, backend, log, at) is Finished,
        backend_tier_model(os.family, backend, log, at)->Finished_0 is Err,
        standalone_tier_model(
            os.family,
            home,
            log,
            backend_tier_model(os.family, backend, log, at)->Finished_1,
        ) is Finished,
        standalone_tier_model(
            os.family,
            home,
            log,
            backend_tier_model(os.family, backend, log, at)->Finished_1,
        )->Finished_0 is Ok,
    ensures
        uv_strategy(os, home, backend, log, at) is Finished,
        uv_strategy(os, home, backend, log, at)->Finished_0 is Ok,
{
}

/// Remediation never fails an install: whenever it ends, it ends in success.
pub proof fn lemma_remediation_never_fails(home: Seq<char>, log: Seq<OutcomeModel>, at: int)
    ensures
        ensure_in_path_model(home, log, at) is Finished ==> ensure_in_path_model(
            home,
            log,
            at,
        )->Finished_0 is Ok,
{
}

/// An install of uv ends within fourteen outcomes on every platform, and the checks of
/// its verification within seven.
pub proof fn lemma_uv_ends(
    os: OsModel,
    home: Seq<char>,
    backend: BackendKind,
    log: Seq<OutcomeModel>,
    at: int,
)
    ensures
        ends_within(uv_strategy(os, home, backend, log, at), at, 14, log.len() as int),
        ends_within(uv_checks(home, log, at), at, 7, log.len() as int),
{
    lemma_run_all_ends(seq![install_command(backend, uv_package(os.family))], log, at);
    lemma_standalone_tier_ends(os.family, home, log, at);
    lemma_standalone_tier_ends(os.family, home, log, at + 1);
    lemma_first_existing_ends(uv_paths(home), "uv"@, log, at);
}

/// A standalone tier ends within thirteen outcomes.
pub proof fn lemma_standalone_tier_ends(
    family: OsFamily,
    home: Seq<char>,
    log: Seq<OutcomeModel>,
    at: int,
)
    ensures
        ends_within(standalone_tier_model(family, home, log, at), at, 13, log.len() as int),
{
    lemma_run_all_ends(seq![windows_installer_command()], log, at);
    if at < log.len() {
        lemma_run_all_ends(seq![shell(installer_script(log[at].succeeded()))], log, at + 1);
        lemma_remediation_ends(home, "uv"@, uv_binary(home), log, at + 1);
        lemma_remediation_ends(home, "uv"@, uv_binary(home), log, at + 2);
    }
}

/// An install of uv that has finished stays finished, in the same way, however the
/// log goes on.
pub proof fn lemma_uv_strategy_settles(
    os: OsModel,
    home: Seq<char>,
    backend: BackendKind,
    log: Seq<OutcomeModel>,
    longer: Seq<OutcomeModel>,
    at: int,
)
    requires
        continues(longer, log),
        0 <= at <= log.len(),
    ensures
        settled(
            uv_strategy(os, home, backend, log, at),
            uv_strategy(os, home, backend, longer, at),
            at,
            log.len() as int,
        ),
{
    lemma_run_all_settles(seq![install_command(backend, uv_package(os.family))], log, longer, at);
    lemma_standalone_tier_settles(os.family, home, log, longer, at);
    match backend_tier_model(os.family, backend, log, at) {
        ProgressModel::Finished(Err(_), k) => {
            lemma_standalone_tier_settles(os.family, home, log, longer, k);
        },
        _ => {},
    }
}

/// A standalone tier that has finished stays finished, in the same way, however the
/// log goes on.
pub proof fn lemma_standalone_tier_settles(
    family: OsFamily,
    home: Seq<char>,
    log: Seq<OutcomeModel>,
    longer: Seq<OutcomeModel>,
    at: int,
)
    requires
        continues(longer, log),
        0 <= at <= log.len(),
    ensures
        settled(
            standalone_tier_model(family, home, log, at),
            standalone_tier_model(family, home, longer, at),
            at,
            log.len() as int,
        ),
{
    lemma_run_all_settles(seq![windows_installer_command()], log, longer, at);
    if at < log.len() {
        assert(longer[at] == log[at]);
        let script = seq![shell(installer_script(log[at].succeeded()))];
        lemma_run_all_settles(script, log, longer, at + 1);
        match run_all_model(script, log, at + 1) {
            ProgressModel::Finished(Ok(_), k) => {
                lemma_remediation_settles(home, "uv"@, uv_binary(home), log, longer, k);
            },
            _ => {},
        }
    }
}

/// The checks of a verification of uv, once finished, stay finished in the same way
/// however the log goes on.
pub proof fn lemma_uv_checks_settle(
    home: Seq<char>,
    log: Seq<OutcomeModel>,
    longer: Seq<OutcomeModel>,
    at: int,
)
    requires
        continues(longer, log),
        0 <= at <= log.len(),
    ensures
        settled(uv_checks(home, log, at), uv_checks(home, longer, at), at, log.len() as int),
{
    lemma_first_existing_settles(uv_paths(home), "uv"@, log, longer, at);
    match first_existing_model(uv_paths(home), "uv"@, log, at) {
        ProgressModel::Finished(program, k) => {
            lemma_version_check_settles("uv"@, version_of(program), log, longer, k);
            match version_check_model("uv"@, version_of(program), log, k) {
                ProgressModel::Finished(Ok(_), j) => {
                    lemma_single_steps_settle(
                        help_of(program),
                        ActionModel::Run(help_of(program)),
                        "uv does not print its usage"@,
                        log,
                        longer,
                        j,
                    );
                },
                _ => {},
            }
        },
        _ => {},
    }
}

/// Builds the command that asks `program` for its version.
pub fn version_command(program: &str) -> (cmd: Command)
    ensures
        cmd@ == version_of(program@),
{
    let cmd = Command::new(program, &["--version"]);
    assert(cmd@.args =~= seq!["--version"@]);
    cmd
}

/// uv, parameterized by the platform it is installed on and the user's home directory.
#[derive(Debug, Clone, PartialEq, Eq)]
pub struct Uv {
    os_info: OsInfo,
    home_dir: String,
}

impl Uv {
    pub fn new(os_info: OsInfo, home_dir: &str) -> (feature: Self)
        ensures
            feature.os() == os_info@,
            feature.home() == home_dir@,
    {
        Uv { os_info, home_dir: String::from_str(home_dir) }
    }

    /// The platform the feature was made for.
    pub closed spec fn os(&self) -> OsModel {
        self.os_info@
    }

    /// The home directory of the user the feature is installed for.
    pub closed spec fn home(&self) -> Seq<char> {
        self.home_dir@
    }

    /// The places where the binary is commonly found.
    fn common_paths(&self) -> (paths: Vec<String>)
        ensures
            paths.deep_view() == uv_paths(self.home()),
    {
        let mut paths: Vec<String> = Vec::new();
        paths.push(path_under(self.home_dir.as_str(), "/.cargo/bin/uv"));
        paths.push(String::from_str("/usr/local/bin/uv"));
        paths.push(String::from_str("/usr/bin/uv"));
        assert(paths.deep_view() =~= uv_paths(self.home()));
        paths
    }

    /// Locates the executable: the first of the common places that exists, and
    /// otherwise the bare name, to be found on the search path.
    pub fn get_uv_command(&self, log: &Vec<Outcome>, at: usize) -> (r: Progress<String>)
        ensures
            r@ == first_existing_model(uv_paths(self.home()), "uv"@, log.deep_view(), at as int),
    {
        let paths = self.common_paths();
        first_existing(&paths, "uv", log, at)
    }

    /// The backend tier on Windows: the package, installed through the backend.
    pub fn try_windows_package_manager_install<P: PackageManager>(
        &self,
        package_manager: &P,
        log: &Vec<Outcome>,
        at: usize,
    ) -> (r: Progress<Verdict>)
        ensures
            r@ == backend_tier_model(
                OsFamily::Windows,
                package_manager.kind(),
                log.deep_view(),
                at as int,
            ),
    {
        package_manager.install("uv --version 0.4.29", log, at)
    }

    /// The standalone tier on Unix: fetches and runs the installer script, with `curl`
    /// where it is available and with `wget` otherwise, then makes the binary
    /// reachable from the shell.
    pub fn install_via_standalone(&self, log: &Vec<Outcome>, at: usize) -> (r: Progress<Verdict>)
        ensures
            r@ == standalone_model(self.home(), log.deep_view(), at as int),
    {
        if at >= log.len() {
            return Progress::Pending(Action::Run(version_command("curl")));
        }
        let curl_available = log[at].succeeded();
        let script = if curl_available {
            "curl -LsSf https://astral.sh/uv/0.4.29/install.sh | sh"
        } else {
            "wget -qO- https://astral.sh/uv/0.4.29/install.sh | sh"
        };
        let cmd = Command::new("sh", &["-c", script]);
        assert(cmd@.args =~= seq!["-c"@, script@]);
        let mut cmds: Vec<Command> = Vec::new();
        cmds.push(cmd);
        assert(cmds.deep_view() =~= seq![shell(installer_script(curl_available))]);
        match run_all(&cmds, log, at + 1) {
            Progress::Finished(Ok(_), k) => self.ensure_uv_in_path(log, k),
            other => other,
        }
    }

    /// Makes the installed binary reachable from the shell. Best effort: however the
    /// remediation ends, the result is a success.
    pub fn ensure_uv_in_path(&self, log: &Vec<Outcome>, at: usize) -> (r: Progress<Verdict>)
        ensures
            r@ == ensure_in_path_model(self.home(), log.deep_view(), at as int),
    {
        let binary = path_under(self.home_dir.as_str(), "/.cargo/bin/uv");
        match remediate(self.home_dir.as_str(), "uv", binary.as_str(), log, at) {
            Progress::Pending(action) => Progress::Pending(action),
            Progress::Finished(_, k) => Progress::Finished(Ok(()), k),
        }
    }

    /// Makes the shell's startup file source the companion environment file; tells
    /// whether the sourcing line was appended.
    pub fn update_shell_profile(&self, log: &Vec<Outcome>, at: usize) -> (r: Progress<bool>)
        ensures
            r@ == update_shell_profile_model(self.home(), log.deep_view(), at as int),
    {
        update_shell_profile(self.home_dir.as_str(), log, at)
    }

    /// Links the binary into the per-user executable directory and puts that directory
    /// on the search path.
    pub fn add_user_bin_to_path(&self, log: &Vec<Outcome>, at: usize) -> (r: Progress<Remedy>)
        ensures
            r@ == user_link_model(
                self.home(),
                "uv"@,
                uv_binary(self.home()),
                log.deep_view(),
                at as int,
            ),
    {
        let binary = path_under(self.home_dir.as_str(), "/.cargo/bin/uv");
        add_user_bin_to_path(self.home_dir.as_str(), "uv", binary.as_str(), log, at)
    }

    /// The standalone tier on Windows: fetches and runs the installer script.
    pub fn install_via_standalone_windows(&self, log: &Vec<Outcome>, at: usize) -> (r: Progress<
        Verdict,
    >)
        ensures
            r@ == standalone_windows_model(log.deep_view(), at as int),
    {
        let cmd = Command::new(
            "powershell",
            &[
                "-ExecutionPolicy",
                "ByPass",
                "-c",
                "irm https://astral.sh/uv/0.4.29/install.ps1 | iex",
            ],
        );
        assert(cmd@.args =~= windows_installer_command().args);
        let mut cmds: Vec<Command> = Vec::new();
        cmds.push(cmd);
        assert(cmds.deep_view() =~= seq![windows_installer_command()]);
        run_all(&cmds, log, at)
    }

    /// The standalone tier that fits the platform.
    fn standalone_tier(&self, log: &Vec<Outcome>, at: usize) -> (r: Progress<Verdict>)
        ensures
            r@ == standalone_tier_model(self.os().family, self.home(), log.deep_view(), at as int),
    {
        match self.os_info.family {
            OsFamily::Windows => self.install_via_standalone_windows(log, at),
            _ => self.install_via_standalone(log, at),
        }
    }

    /// Whether the platform's backend is known to carry the package.
    fn backend_carries(&self) -> (yes: bool)
        ensures
            yes == backend_carries_uv(self.os()),
    {
        let name = self.os_info.name.as_str();
        match self.os_info.family {
            OsFamily::Linux => text_eq(name, "ubuntu") || text_eq(name, "debian"),
            OsFamily::Windows => true,
            OsFamily::MacOs => true,
            OsFamily::Unknown => false,
        }
    }

    /// The backend tier: the package, installed through the platform's backend.
    fn backend_tier<P: PackageManager>(&self, package_manager: &P, log: &Vec<Outcome>, at: usize)
        -> (r: Progress<Verdict>)
        ensures
            r@ == backend_tier_model(
                self.os().family,
                package_manager.kind(),
                log.deep_view(),
                at as int,
            ),
    {
        match self.os_info.family {
            OsFamily::Windows => self.try_windows_package_manager_install(
                package_manager,
                log,
                at,
            ),
            OsFamily::MacOs => package_manager.install("uv@0.4.29", log, at),
            _ => package_manager.install("uv", log, at),
        }
    }
}

impl Feature for Uv {
    open spec fn label(&self) -> Seq<char> {
        "uv"@
    }

    open spec fn summary(&self) -> Seq<char> {
        "uv - An extremely fast Python package installer and resolver"@
    }

    open spec fn probe_model(&self, log: Seq<OutcomeModel>, at: int) -> ProgressModel<bool> {
        any_succeeds_model(uv_probe_commands(self.home()), log, at)
    }

    open spec fn strategy_model(&self, backend: BackendKind, log: Seq<OutcomeModel>, at: int)
        -> VerdictProgress {
        uv_strategy(self.os(), self.home(), backend, log, at)
    }

    open spec fn checks_model(&self, log: Seq<OutcomeModel>, at: int) -> VerdictProgress {
        uv_checks(self.home(), log, at)
    }

    fn name(&self) -> (name: &'static str) {
        "uv"
    }

    fn description(&self) -> (text: &'static str) {
        "uv - An extremely fast Python package installer and resolver"
    }

    fn is_installed(&self, log: &Vec<Outcome>, at: usize) -> (r: Progress<bool>) {
        let mut cmds: Vec<Command> = Vec::new();
        cmds.push(version_command("uv"));
        let binary = path_under(self.home_dir.as_str(), "/.cargo/bin/uv");
        cmds.push(version_command(binary.as_str()));
        cmds.push(version_command("/usr/local/bin/uv"));
        cmds.push(version_command("/usr/bin/uv"));
        assert(cmds.deep_view() =~= uv_probe_commands(self.home()));
        any_succeeds(&cmds, log, at)
    }

    fn install<P: PackageManager>(&self, package_manager: &P, log: &Vec<Outcome>, at: usize) -> (r:
        Progress<Verdict>) {
        let at = match self.is_installed(log, at) {
            Progress::Pending(action) => {
                return Progress::Pending(action);
            },
            Progress::Finished(present, k) => {
                if present {
                    return Progress::Finished(Ok(()), k);
                }
                k
            },
        };
        match self.os_info.family {
            OsFamily::Unknown => {
                return Progress::Finished(Err(InstallError::UnsupportedPlatform), at);
            },
            _ => {},
        }
        if !self.backend_carries() {
            return self.standalone_tier(log, at);
        }
        match self.backend_tier(package_manager, log, at) {
            Progress::Finished(Err(_), k) => self.standalone_tier(log, k),
            other => other,
        }
    }

    fn verify(&self, log: &Vec<Outcome>, at: usize) -> (r: Progress<Verdict>) {
        let at = match self.is_installed(log, at) {
            Progress::Pending(action) => {
                return Progress::Pending(action);
            },
            Progress::Finished(present, k) => {
                if !present {
                    return Progress::Finished(
                        Err(InstallError::VerificationFailed { feature: String::from_str("uv") }),
                        k,
                    );
                }
                k
            },
        };
        let (uv_cmd, at) = match self.get_uv_command(log, at) {
            Progress::Pending(action) => {
                return Progress::Pending(action);
            },
            Progress::Finished(program, k) => (program, k),
        };
        let at = match version_check("uv", version_command(uv_cmd.as_str()), log, at) {
            Progress::Finished(Ok(_), k) => k,
            other => {
                return other;
            },
        };
        let help = Command::new(uv_cmd.as_str(), &["--help"]);
        assert(help@.args =~= seq!["--help"@]);
        best_effort(help, "uv does not print its usage", log, at)
    }
}

} // verus!
