//! Package-manager backends: one per supported platform, and their selection.

use vstd::prelude::*;
use crate::error::{ErrorModel, InstallError, Verdict};
use crate::host::{Action, ActionModel, Command, CommandModel, Outcome, texts};
use crate::os::{OsFamily, OsInfo, OsModel};
use crate::progress::{attempt, attempt_model, Progress, run_all, run_all_model};
use crate::text::text_eq;

verus! {

/// Identity of a backend.
#[derive(Debug, Clone, Copy, PartialEq, Eq, Structural)]
pub enum BackendKind {
    Apt,
    Yum,
    Apk,
    Chocolatey,
    Brew,
}

/// The name a backend goes by.
pub open spec fn backend_name(kind: BackendKind) -> Seq<char> {
    match kind {
        BackendKind::Apt => "apt"@,
        BackendKind::Yum => "yum"@,
        BackendKind::Apk => "apk"@,
        BackendKind::Chocolatey => "chocolatey"@,
        BackendKind::Brew => "homebrew"@,
    }
}

/// Whether a backend's commands go through the privilege-escalation wrapper: on every
/// platform but Windows, where the installer already runs elevated.
pub open spec fn elevates(kind: BackendKind) -> bool {
    kind != BackendKind::Chocolatey
}

/// The command that refreshes the backend's package lists.
pub open spec fn update_command(kind: BackendKind) -> CommandModel {
    match kind {
        BackendKind::Apt => CommandModel { program: "sudo"@, args: seq!["apt-get"@, "update"@] },
        BackendKind::Yum => CommandModel {
            program: "sudo"@,
            args: seq!["yum"@, "update"@, "-y"@],
        },
        BackendKind::Apk => CommandModel { program: "sudo"@, args: seq!["apk"@, "update"@] },
        BackendKind::Chocolatey => CommandModel {
            program: "choco"@,
            args: seq!["upgrade"@, "all"@, "-y"@],
        },
        BackendKind::Brew => CommandModel { program: "brew"@, args: seq!["update"@] },
    }
}

/// The command that installs `package` through the backend.
pub open spec fn install_command(kind: BackendKind, package: Seq<char>) -> CommandModel {
    match kind {
        BackendKind::Apt => CommandModel {
            program: "sudo"@,
            args: seq!["apt-get"@, "install"@, "-y"@, package],
        },
        BackendKind::Yum => CommandModel {
            program: "sudo"@,
            args: seq!["yum"@, "install"@, "-y"@, package],
        },
        BackendKind::Apk => CommandModel {
            program: "sudo"@,
            args: seq!["apk"@, "add"@, "--no-cache"@, package],
        },
        BackendKind::Chocolatey => CommandModel {
            program: "choco"@,
            args: seq!["install"@, package, "-y"@],
        },
        BackendKind::Brew => CommandModel { program: "brew"@, args: seq!["install"@, package] },
    }
}

/// The command whose success tells that `package` is installed.
pub open spec fn query_command(kind: BackendKind, package: Seq<char>) -> CommandModel {
    match kind {
        BackendKind::Apt => CommandModel { program: "dpkg"@, args: seq!["-l"@, package] },
        BackendKind::Yum => CommandModel { program: "rpm"@, args: seq!["-q"@, package] },
        BackendKind::Apk => CommandModel { program: "apk"@, args: seq!["info"@, "-e"@, package] },
        BackendKind::Chocolatey => CommandModel {
            program: "choco"@,
            args: seq!["list"@, "--local-only"@, package],
        },
        BackendKind::Brew => CommandModel { program: "brew"@, args: seq!["list"@, package] },
    }
}

/// `command` with `args`, behind the privilege-escalation wrapper.
pub open spec fn elevated(command: Seq<char>, args: Seq<Seq<char>>) -> CommandModel {
    CommandModel { program: "sudo"@, args: seq![command] + args }
}

/// A shell pipeline run behind the privilege-escalation wrapper.
pub open spec fn sudo_shell(script: Seq<char>) -> CommandModel {
    elevated("bash"@, seq!["-c"@, script])
}

/// `command` with `args` as the backend runs it with the privileges it needs.
pub open spec fn privileged_command(kind: BackendKind, command: Seq<char>, args: Seq<Seq<char>>)
    -> CommandModel {
    if elevates(kind) {
        elevated(command, args)
    } else {
        CommandModel { program: command, args }
    }
}

/// The backend for a platform: a function of the family and the distribution alone.
/// A Linux distribution that is not recognised gets the Debian-family backend; an
/// unknown family gets none.
pub open spec fn select_backend(family: OsFamily, distribution: Seq<char>) -> Option<BackendKind> {
    match family {
        OsFamily::Linux => if distribution == "ubuntu"@ || distribution == "debian"@ {
            Some(BackendKind::Apt)
        } else if distribution == "centos"@ || distribution == "rhel"@ || distribution
            == "fedora"@ {
            Some(BackendKind::Yum)
        } else if distribution == "alpine"@ {
            Some(BackendKind::Apk)
        } else {
            Some(BackendKind::Apt)
        },
        OsFamily::Windows => Some(BackendKind::Chocolatey),
        OsFamily::MacOs => Some(BackendKind::Brew),
        OsFamily::Unknown => None,
    }
}

/// The backend that is selected for a platform.
pub open spec fn backend_for(os: OsModel) -> Option<BackendKind> {
    select_backend(os.family, os.name)
}

/// The backend value of a given identity.
pub open spec fn backend_of(kind: BackendKind) -> Backend {
    match kind {
        BackendKind::Apt => Backend::Apt(AptPackageManager),
        BackendKind::Yum => Backend::Yum(YumPackageManager),
        BackendKind::Apk => Backend::Apk(ApkPackageManager),
        BackendKind::Chocolatey => Backend::Chocolatey(ChocolateyPackageManager),
        BackendKind::Brew => Backend::Brew(BrewPackageManager),
    }
}

/// Backend selection depends on nothing but the family and the distribution: two
/// platforms that agree on both get the same backend, whatever their versions and
/// architectures.
pub proof fn lemma_selection_is_deterministic(a: OsModel, b: OsModel)
    requires
        a.family == b.family,
        a.name == b.name,
    ensures
        backend_for(a) == backend_for(b),
{
}

/// Every supported family has exactly one backend, and the unknown family alone has
/// none.
pub proof fn lemma_backend_exists_unless_family_is_unknown(os: OsModel)
    ensures
        backend_for(os) is None <==> os.family == OsFamily::Unknown,
{
}

/// Builds `command` with `args` behind the privilege-escalation wrapper.
pub fn sudo(command: &str, args: &[&str]) -> (cmd: Command)
    ensures
        cmd@ == elevated(command@, texts(args@)),
{
    let mut owned: Vec<String> = Vec::new();
    owned.push(String::from_str(command));
    let n: usize = args.len();
    let mut i: usize = 0;
    while i < n
        invariant
            n == args@.len(),
            i <= n,
            owned@.len() == i + 1,
            owned@[0]@ == command@,
            forall|j: int| 0 <= j < i ==> (#[trigger] owned@[j + 1])@ == args@[j]@,
        decreases n - i,
    {
        owned.push(String::from_str(args[i]));
        i += 1;
    }
    let ghost want = seq![command@] + texts(args@);
    assert forall|k: int| 0 <= k < want.len() implies owned.deep_view()[k] == want[k] by {
        if k > 0 {
            assert(owned@[(k - 1) + 1]@ == args@[k - 1]@);
        }
    }
    assert(owned.deep_view() =~= want);
    Command { program: String::from_str("sudo"), args: owned }
}

/// Builds a shell pipeline run behind the privilege-escalation wrapper.
pub fn sudo_bash(script: &str) -> (cmd: Command)
    ensures
        cmd@ == sudo_shell(script@),
{
    let cmd = sudo("bash", &["-c", script]);
    assert(cmd@.args =~= seq!["bash"@] + seq!["-c"@, script@]);
    cmd
}

/// The capabilities of a package-manager backend.
pub trait PackageManager {
    /// Which backend this is.
    spec fn kind(&self) -> BackendKind;

    /// The name the backend goes by.
    fn name(&self) -> (name: &'static str)
        ensures
            name@ == backend_name(self.kind()),
    ;

    /// The command that refreshes the package lists.
    fn update_command(&self) -> (cmd: Command)
        ensures
            cmd@ == update_command(self.kind()),
    ;

    /// The command that installs `package`.
    fn install_command(&self, package: &str) -> (cmd: Command)
        ensures
            cmd@ == install_command(self.kind(), package@),
    ;

    /// The command whose success tells that `package` is installed.
    fn query_command(&self, package: &str) -> (cmd: Command)
        ensures
            cmd@ == query_command(self.kind(), package@),
    ;

    /// `command` with `args`, run with the privileges the backend needs.
    fn privileged_command(&self, command: &str, args: &[&str]) -> (cmd: Command)
        ensures
            cmd@ == privileged_command(self.kind(), command@, texts(args@)),
    ;

    /// Refreshes the package lists. Anything but a successful exit is an error that
    /// carries the command line and the exit status; nothing is retried.
    fn update(&self, log: &Vec<Outcome>, at: usize) -> (r: Progress<Verdict>)
        ensures
            r@ == run_all_model(seq![update_command(self.kind())], log.deep_view(), at as int),
    {
        let mut cmds: Vec<Command> = Vec::new();
        cmds.push(self.update_command());
        assert(cmds.deep_view() =~= seq![update_command(self.kind())]);
        run_all(&cmds, log, at)
    }

    /// Installs `package`. Anything but a successful exit is an error that carries the
    /// command line and the exit status; nothing is retried.
    fn install(&self, package: &str, log: &Vec<Outcome>, at: usize) -> (r: Progress<Verdict>)
        ensures
            r@ == run_all_model(
                seq![install_command(self.kind(), package@)],
                log.deep_view(),
                at as int,
            ),
    {
        let mut cmds: Vec<Command> = Vec::new();
        cmds.push(self.install_command(package));
        assert(cmds.deep_view() =~= seq![install_command(self.kind(), package@)]);
        run_all(&cmds, log, at)
    }

    /// Tells whether `package` is installed: whether the query command succeeds.
    fn is_installed(&self, package: &str, log: &Vec<Outcome>, at: usize) -> (r: Progress<bool>)
        ensures
            r@ == attempt_model(
                ActionModel::Run(query_command(self.kind(), package@)),
                log.deep_view(),
                at as int,
            ),
    {
        attempt(Action::Run(self.query_command(package)), log, at)
    }

    /// Runs `command` with `args` with the privileges the backend needs. Anything but a
    /// successful exit is an error that carries the command line and the exit status.
    fn execute_command(&self, command: &str, args: &[&str], log: &Vec<Outcome>, at: usize) -> (r:
        Progress<Verdict>)
        ensures
            r@ == run_all_model(
                seq![privileged_command(self.kind(), command@, texts(args@))],
                log.deep_view(),
                at as int,
            ),
    {
        let mut cmds: Vec<Command> = Vec::new();
        cmds.push(self.privileged_command(command, args));
        assert(cmds.deep_view() =~= seq![
            privileged_command(self.kind(), command@, texts(args@)),
        ]);
        run_all(&cmds, log, at)
    }
}

/// APT, for Debian and Ubuntu.
#[derive(Debug, Clone, Copy, PartialEq, Eq, Structural)]
pub struct AptPackageManager;

impl AptPackageManager {
    pub fn new() -> (pm: Self)
        ensures
            pm.kind() == BackendKind::Apt,
    {
        AptPackageManager
    }
}

impl Default for AptPackageManager {
    fn default() -> (pm: Self)
        ensures
            pm.kind() == BackendKind::Apt,
    {
        AptPackageManager::new()
    }
}

impl PackageManager for AptPackageManager {
    open spec fn kind(&self) -> BackendKind {
        BackendKind::Apt
    }

    fn name(&self) -> (name: &'static str) {
        "apt"
    }

    fn update_command(&self) -> (cmd: Command) {
        let cmd = Command::new("sudo", &["apt-get", "update"]);
        assert(cmd@.args =~= seq!["apt-get"@, "update"@]);
        cmd
    }

    fn install_command(&self, package: &str) -> (cmd: Command) {
        let cmd = Command::new("sudo", &["apt-get", "install", "-y", package]);
        assert(cmd@.args =~= seq!["apt-get"@, "install"@, "-y"@, package@]);
        cmd
    }

    fn query_command(&self, package: &str) -> (cmd: Command) {
        let cmd = Command::new("dpkg", &["-l", package]);
        assert(cmd@.args =~= seq!["-l"@, package@]);
        cmd
    }

    fn privileged_command(&self, command: &str, args: &[&str]) -> (cmd: Command) {
        sudo(command, args)
    }
}

/// YUM, for CentOS, RHEL and Fedora.
#[derive(Debug, Clone, Copy, PartialEq, Eq, Structural)]
pub struct YumPackageManager;

impl YumPackageManager {
    pub fn new() -> (pm: Self)
        ensures
            pm.kind() == BackendKind::Yum,
    {
        YumPackageManager
    }
}

impl Default for YumPackageManager {
    fn default() -> (pm: Self)
        ensures
            pm.kind() == BackendKind::Yum,
    {
        YumPackageManager::new()
    }
}

impl PackageManager for YumPackageManager {
    open spec fn kind(&self) -> BackendKind {
        BackendKind::Yum
    }

    fn name(&self) -> (name: &'static str) {
        "yum"
    }

    fn update_command(&self) -> (cmd: Command) {
        let cmd = Command::new("sudo", &["yum", "update", "-y"]);
        assert(cmd@.args =~= seq!["yum"@, "update"@, "-y"@]);
        cmd
    }

    fn install_command(&self, package: &str) -> (cmd: Command) {
        let cmd = Command::new("sudo", &["yum", "install", "-y", package]);
        assert(cmd@.args =~= seq!["yum"@, "install"@, "-y"@, package@]);
        cmd
    }

    fn query_command(&self, package: &str) -> (cmd: Command) {
        let cmd = Command::new("rpm", &["-q", package]);
        assert(cmd@.args =~= seq!["-q"@, package@]);
        cmd
    }

    fn privileged_command(&self, command: &str, args: &[&str]) -> (cmd: Command) {
        sudo(command, args)
    }
}

/// APK, for Alpine Linux.
#[derive(Debug, Clone, Copy, PartialEq, Eq, Structural)]
pub struct ApkPackageManager;

impl ApkPackageManager {
    pub fn new() -> (pm: Self)
        ensures
            pm.kind() == BackendKind::Apk,
    {
        ApkPackageManager
    }
}

impl Default for ApkPackageManager {
    fn default() -> (pm: Self)
        ensures
            pm.kind() == BackendKind::Apk,
    {
        ApkPackageManager::new()
    }
}

impl PackageManager for ApkPackageManager {
    open spec fn kind(&self) -> BackendKind {
        BackendKind::Apk
    }

    fn name(&self) -> (name: &'static str) {
        "apk"
    }

    fn update_command(&self) -> (cmd: Command) {
        let cmd = Command::new("sudo", &["apk", "update"]);
        assert(cmd@.args =~= seq!["apk"@, "update"@]);
        cmd
    }

    fn install_command(&self, package: &str) -> (cmd: Command) {
        let cmd = Command::new("sudo", &["apk", "add", "--no-cache", package]);
        assert(cmd@.args =~= seq!["apk"@, "add"@, "--no-cache"@, package@]);
        cmd
    }

    fn query_command(&self, package: &str) -> (cmd: Command) {
        let cmd = Command::new("apk", &["info", "-e", package]);
        assert(cmd@.args =~= seq!["info"@, "-e"@, package@]);
        cmd
    }

    fn privileged_command(&self, command: &str, args: &[&str]) -> (cmd: Command) {
        sudo(command, args)
    }
}

/// Chocolatey, for Windows.
#[derive(Debug, Clone, Copy, PartialEq, Eq, Structural)]
pub struct ChocolateyPackageManager;

impl ChocolateyPackageManager {
    pub fn new() -> (pm: Self)
        ensures
            pm.kind() == BackendKind::Chocolatey,
    {
        ChocolateyPackageManager
    }
}

impl Default for ChocolateyPackageManager {
    fn default() -> (pm: Self)
        ensures
            pm.kind() == BackendKind::Chocolatey,
    {
        ChocolateyPackageManager::new()
    }
}

impl PackageManager for ChocolateyPackageManager {
    open spec fn kind(&self) -> BackendKind {
        BackendKind::Chocolatey
    }

    fn name(&self) -> (name: &'static str) {
        "chocolatey"
    }

    fn update_command(&self) -> (cmd: Command) {
        let cmd = Command::new("choco", &["upgrade", "all", "-y"]);
        assert(cmd@.args =~= seq!["upgrade"@, "all"@, "-y"@]);
        cmd
    }

    fn install_command(&self, package: &str) -> (cmd: Command) {
        let cmd = Command::new("choco", &["install", package, "-y"]);
        assert(cmd@.args =~= seq!["install"@, package@, "-y"@]);
        cmd
    }

    fn query_command(&self, package: &str) -> (cmd: Command) {
        let cmd = Command::new("choco", &["list", "--local-only", package]);
        assert(cmd@.args =~= seq!["list"@, "--local-only"@, package@]);
        cmd
    }

    fn privileged_command(&self, command: &str, args: &[&str]) -> (cmd: Command) {
        Command::new(command, args)
    }
}

/// Homebrew, for macOS.
#[derive(Debug, Clone, Copy, PartialEq, Eq, Structural)]
pub struct BrewPackageManager;

impl BrewPackageManager {
    pub fn new() -> (pm: Self)
        ensures
            pm.kind() == BackendKind::Brew,
    {
        BrewPackageManager
    }
}

impl Default for BrewPackageManager {
    fn default() -> (pm: Self)
        ensures
            pm.kind() == BackendKind::Brew,
    {
        BrewPackageManager::new()
    }
}

impl PackageManager for BrewPackageManager {
    open spec fn kind(&self) -> BackendKind {
        BackendKind::Brew
    }

    fn name(&self) -> (name: &'static str) {
        "homebrew"
    }

    fn update_command(&self) -> (cmd: Command) {
        let cmd = Command::new("brew", &["update"]);
        assert(cmd@.args =~= seq!["update"@]);
        cmd
    }

    fn install_command(&self, package: &str) -> (cmd: Command) {
        let cmd = Command::new("brew", &["install", package]);
        assert(cmd@.args =~= seq!["install"@, package@]);
        cmd
    }

    fn query_command(&self, package: &str) -> (cmd: Command) {
        let cmd = Command::new("brew", &["list", package]);
        assert(cmd@.args =~= seq!["list"@, package@]);
        cmd
    }

    fn privileged_command(&self, command: &str, args: &[&str]) -> (cmd: Command) {
        sudo(command, args)
    }
}

/// The backend that is active for a run: exactly one of the supported backends.
#[derive(Debug, Clone, Copy, PartialEq, Eq, Structural)]
pub enum Backend {
    Apt(AptPackageManager),
    Yum(YumPackageManager),
    Apk(ApkPackageManager),
    Chocolatey(ChocolateyPackageManager),
    Brew(BrewPackageManager),
}

impl PackageManager for Backend {
    open spec fn kind(&self) -> BackendKind {
        match self {
            Backend::Apt(_) => BackendKind::Apt,
            Backend::Yum(_) => BackendKind::Yum,
            Backend::Apk(_) => BackendKind::Apk,
            Backend::Chocolatey(_) => BackendKind::Chocolatey,
            Backend::Brew(_) => BackendKind::Brew,
        }
    }

    fn name(&self) -> (name: &'static str) {
        match self {
            Backend::Apt(pm) => pm.name(),
            Backend::Yum(pm) => pm.name(),
            Backend::Apk(pm) => pm.name(),
            Backend::Chocolatey(pm) => pm.name(),
            Backend::Brew(pm) => pm.name(),
        }
    }

    fn update_command(&self) -> (cmd: Command) {
        match self {
            Backend::Apt(pm) => pm.update_command(),
            Backend::Yum(pm) => pm.update_command(),
            Backend::Apk(pm) => pm.update_command(),
            Backend::Chocolatey(pm) => pm.update_command(),
            Backend::Brew(pm) => pm.update_command(),
        }
    }

    fn install_command(&self, package: &str) -> (cmd: Command) {
        match self {
            Backend::Apt(pm) => pm.install_command(package),
            Backend::Yum(pm) => pm.install_command(package),
            Backend::Apk(pm) => pm.install_command(package),
            Backend::Chocolatey(pm) => pm.install_command(package),
            Backend::Brew(pm) => pm.install_command(package),
        }
    }

    fn query_command(&self, package: &str) -> (cmd: Command) {
        match self {
            Backend::Apt(pm) => pm.query_command(package),
            Backend::Yum(pm) => pm.query_command(package),
            Backend::Apk(pm) => pm.query_command(package),
            Backend::Chocolatey(pm) => pm.query_command(package),
            Backend::Brew(pm) => pm.query_command(package),
        }
    }

    fn privileged_command(&self, command: &str, args: &[&str]) -> (cmd: Command) {
        match self {
            Backend::Apt(pm) => pm.privileged_command(command, args),
            Backend::Yum(pm) => pm.privileged_command(command, args),
            Backend::Apk(pm) => pm.privileged_command(command, args),
            Backend::Chocolatey(pm) => pm.privileged_command(command, args),
            Backend::Brew(pm) => pm.privileged_command(command, args),
        }
    }
}

/// Selects the backend for the platform. Fails only for an unknown family, for which no
/// backend exists.
pub fn create_package_manager(os_info: &OsInfo) -> (r: Result<Backend, InstallError>)
    ensures
        match backend_for(os_info@) {
            Some(kind) => r == Ok::<Backend, InstallError>(backend_of(kind)) && r->Ok_0.kind()
                == kind,
            None => r is Err && r->Err_0@ == ErrorModel::UnsupportedPlatform,
        },
{
    let name = os_info.name.as_str();
    match os_info.family {
        OsFamily::Linux => {
            if text_eq(name, "ubuntu") || text_eq(name, "debian") {
                Ok(Backend::Apt(AptPackageManager::new()))
            } else if text_eq(name, "centos") || text_eq(name, "rhel") || text_eq(name, "fedora") {
                Ok(Backend::Yum(YumPackageManager::new()))
            } else if text_eq(name, "alpine") {
                Ok(Backend::Apk(ApkPackageManager::new()))
            } else {
                Ok(Backend::Apt(AptPackageManager::new()))
            }
        },
        OsFamily::Windows => Ok(Backend::Chocolatey(ChocolateyPackageManager::new())),
        OsFamily::MacOs => Ok(Backend::Brew(BrewPackageManager::new())),
        OsFamily::Unknown => Err(InstallError::UnsupportedPlatform),
    }
}

} // verus!
