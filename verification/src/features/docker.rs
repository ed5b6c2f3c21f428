//! Docker: the container engine and its command-line client.

use vstd::prelude::*;
use crate::error::{command_failure, ErrorModel, InstallError, Verdict};
use crate::features::{Feature, lemma_version_check_settles, version_check, version_check_model};
use crate::host::{Action, ActionModel, Command, CommandModel, Outcome, OutcomeModel};
use crate::os::{OsFamily, OsInfo, OsModel};
use crate::package_managers::{
    BackendKind, elevated, install_command, PackageManager, sudo, sudo_bash, sudo_shell,
    update_command,
};
use crate::progress::{
    and_then, attempt, attempt_model, best_effort, best_effort_model, continues, ends_within,
    ignored, ignored_model, launch, launch_model, lemma_run_all_ends, lemma_run_all_settles,
    lemma_single_steps_settle, Progress, ProgressModel, run_all, run_all_model, settled,
    VerdictProgress,
};
use crate::text::{text_eq, Trim, trim, trimmed};

verus! {

/// The command that prints the version of the client.
pub open spec fn docker_version_command() -> CommandModel {
    CommandModel { program: "docker"@, args: seq!["--version"@] }
}

/// The command that runs a throw-away container, which works only with a running daemon.
pub open spec fn hello_world_command() -> CommandModel {
    CommandModel { program: "docker"@, args: seq!["run"@, "--rm"@, "hello-world"@] }
}

/// The pipeline that stores the signing key of the vendor's package repository.
pub open spec fn docker_key_script() -> Seq<char> {
    "curl -fsSL https://download.docker.com/linux/ubuntu/gpg | sudo gpg --dearmor -o /usr/share/keyrings/docker-archive-keyring.gpg"@
}

/// The pipeline that adds the definition of the vendor's package repository.
pub open spec fn docker_repo_script() -> Seq<char> {
    "echo \"deb [arch=$(dpkg --print-architecture) signed-by=/usr/share/keyrings/docker-archive-keyring.gpg] https://download.docker.com/linux/ubuntu $(lsb_release -cs) stable\" | sudo tee /etc/apt/sources.list.d/docker.list > /dev/null"@
}

/// The engine, its client and the container runtime, installed through the backend.
pub open spec fn docker_packages(backend: BackendKind) -> Seq<CommandModel> {
    seq![
        install_command(backend, "docker-ce"@),
        install_command(backend, "docker-ce-cli"@),
        install_command(backend, "containerd.io"@),
    ]
}

/// The repository bootstrap on the Debian family: prerequisites, signing key,
/// repository definition, a refresh of the package lists, then the packages.
pub open spec fn docker_debian_plan(backend: BackendKind) -> Seq<CommandModel> {
    seq![
        update_command(backend),
        install_command(backend, "ca-certificates"@),
        install_command(backend, "curl"@),
        install_command(backend, "gnupg"@),
        install_command(backend, "lsb-release"@),
        sudo_shell(docker_key_script()),
        sudo_shell(docker_repo_script()),
        update_command(backend),
    ] + docker_packages(backend)
}

/// The repository bootstrap on the Red Hat family: the repository tool, the
/// repository definition, then the packages.
pub open spec fn docker_redhat_plan(backend: BackendKind) -> Seq<CommandModel> {
    seq![
        install_command(backend, "yum-utils"@),
        elevated(
            "yum-config-manager"@,
            seq!["--add-repo"@, "https://download.docker.com/linux/centos/docker-ce.repo"@],
        ),
    ] + docker_packages(backend)
}

/// The vendor's convenience script, for a Linux distribution that is not recognised.
pub open spec fn docker_script_plan() -> Seq<CommandModel> {
    seq![sudo_shell("curl -fsSL https://get.docker.com | sudo sh"@)]
}

/// The two packages that make up Docker on Alpine.
pub open spec fn docker_alpine_plan(backend: BackendKind) -> Seq<CommandModel> {
    seq![install_command(backend, "docker"@), install_command(backend, "docker-compose"@)]
}

/// The command that starts the daemon through the service manager.
pub open spec fn systemctl_command(verb: Seq<char>) -> CommandModel {
    elevated("systemctl"@, seq![verb, "docker"@])
}

/// The command that starts the daemon through the older service tool.
pub open spec fn service_start_command() -> CommandModel {
    elevated("service"@, seq!["docker"@, "start"@])
}

/// Starting the daemon never fails the install. The service manager is tried first
/// and, where it starts the daemon, also told to start it at boot. Otherwise the older
/// service tool is tried, and a warning is all that follows if that fails too.
pub open spec fn start_service_model(log: Seq<OutcomeModel>, at: int) -> VerdictProgress {
    if at >= log.len() {
        ProgressModel::Pending(ActionModel::Run(systemctl_command("start"@)))
    } else if log[at].succeeded() {
        ignored_model(systemctl_command("enable"@), log, at + 1)
    } else {
        best_effort_model(
            service_start_command(),
            "Could not start Docker service automatically"@,
            log,
            at + 1,
        )
    }
}

/// The command that tells the name of the current user.
pub open spec fn whoami_command() -> CommandModel {
    CommandModel { program: "whoami"@, args: Seq::empty() }
}

/// The command that adds `user` to the group that may talk to the daemon.
pub open spec fn usermod_command(user: Seq<char>) -> CommandModel {
    elevated("usermod"@, seq!["-aG"@, "docker"@, user])
}

/// Adding the current user to the group that may talk to the daemon. The user's name
/// must be found; the group change must start, but its exit status does not matter.
pub open spec fn add_user_model(log: Seq<OutcomeModel>, at: int) -> VerdictProgress {
    if at >= log.len() {
        ProgressModel::Pending(ActionModel::Run(whoami_command()))
    } else if !log[at].succeeded() {
        ProgressModel::Finished(Err(command_failure(whoami_command(), log[at])), at + 1)
    } else {
        launch_model(usermod_command(trimmed(log[at].stdout(), Trim::Whitespace)), log, at + 1)
    }
}

/// Bringing the engine onto the host, by platform.
pub open spec fn docker_setup(os: OsModel, backend: BackendKind, log: Seq<OutcomeModel>, at: int)
    -> VerdictProgress {
    match os.family {
        OsFamily::Linux => if os.name == "ubuntu"@ || os.name == "debian"@ {
            run_all_model(docker_debian_plan(backend), log, at)
        } else if os.name == "alpine"@ {
            and_then(
                run_all_model(docker_alpine_plan(backend), log, at),
                |k: int| start_service_model(log, k),
            )
        } else if os.name == "centos"@ || os.name == "rhel"@ || os.name == "fedora"@ {
            and_then(
                run_all_model(docker_redhat_plan(backend), log, at),
                |k: int| start_service_model(log, k),
            )
        } else {
            run_all_model(docker_script_plan(), log, at)
        },
        OsFamily::Windows => run_all_model(
            seq![install_command(backend, "docker-desktop"@)],
            log,
            at,
        ),
        OsFamily::MacOs => run_all_model(seq![install_command(backend, "docker"@)], log, at),
        OsFamily::Unknown => ProgressModel::Finished(Err(ErrorModel::UnsupportedPlatform), at),
    }
}

/// Installing Docker once the probe has found it absent: the engine is brought onto
/// the host and, on Linux, the current user joins the group that may talk to it.
pub open spec fn docker_strategy(
    os: OsModel,
    backend: BackendKind,
    log: Seq<OutcomeModel>,
    at: int,
) -> VerdictProgress {
    and_then(
        docker_setup(os, backend, log, at),
        |k: int|
            if os.family == OsFamily::Linux {
                add_user_model(log, k)
            } else {
                ProgressModel::Finished(Ok(()), k)
            },
    )
}

/// The checks of a verification: the client must print its version; a throw-away
/// container is the smoke test.
pub open spec fn docker_checks(log: Seq<OutcomeModel>, at: int) -> VerdictProgress {
    and_then(
        version_check_model("docker"@, docker_version_command(), log, at),
        |k: int|
            best_effort_model(
                hello_world_command(),
                "Docker installed but daemon may not be running"@,
                log,
                k,
            ),
    )
}

/// An install of Docker ends within thirteen outcomes on every platform, and the
/// checks of its verification within four.
pub proof fn lemma_docker_ends(os: OsModel, backend: BackendKind, log: Seq<OutcomeModel>, at: int)
    ensures
        ends_within(docker_strategy(os, backend, log, at), at, 13, log.len() as int),
        ends_within(docker_checks(log, at), at, 4, log.len() as int),
{
    lemma_run_all_ends(docker_debian_plan(backend), log, at);
    lemma_run_all_ends(docker_alpine_plan(backend), log, at);
    lemma_run_all_ends(docker_redhat_plan(backend), log, at);
    lemma_run_all_ends(docker_script_plan(), log, at);
    lemma_run_all_ends(seq![install_command(backend, "docker-desktop"@)], log, at);
    lemma_run_all_ends(seq![install_command(backend, "docker"@)], log, at);
    assert(docker_debian_plan(backend).len() == 11);
    assert(docker_redhat_plan(backend).len() == 5);
}

/// Starting the daemon and changing the group, once finished, stay finished in the
/// same way however the log goes on.
pub proof fn lemma_docker_steps_settle(log: Seq<OutcomeModel>, longer: Seq<OutcomeModel>, at: int)
    requires
        continues(longer, log),
        0 <= at <= log.len(),
    ensures
        settled(start_service_model(log, at), start_service_model(longer, at), at, log.len() as int),
        settled(add_user_model(log, at), add_user_model(longer, at), at, log.len() as int),
{
    if at < log.len() {
        assert(longer[at] == log[at]);
        lemma_single_steps_settle(
            systemctl_command("enable"@),
            ActionModel::Run(systemctl_command("enable"@)),
            Seq::empty(),
            log,
            longer,
            at + 1,
        );
        lemma_single_steps_settle(
            service_start_command(),
            ActionModel::Run(service_start_command()),
            "Could not start Docker service automatically"@,
            log,
            longer,
            at + 1,
        );
        let usermod = usermod_command(trimmed(log[at].stdout(), Trim::Whitespace));
        lemma_single_steps_settle(
            usermod,
            ActionModel::Run(usermod),
            Seq::empty(),
            log,
            longer,
            at + 1,
        );
    }
}

/// An install of Docker that has finished stays finished, in the same way, however
/// the log goes on.
pub proof fn lemma_docker_strategy_settles(
    os: OsModel,
    backend: BackendKind,
    log: Seq<OutcomeModel>,
    longer: Seq<OutcomeModel>,
    at: int,
)
    requires
        continues(longer, log),
        0 <= at <= log.len(),
    ensures
        settled(
            docker_strategy(os, backend, log, at),
            docker_strategy(os, backend, longer, at),
            at,
            log.len() as int,
        ),
{
    lemma_run_all_settles(docker_debian_plan(backend), log, longer, at);
    lemma_run_all_settles(docker_alpine_plan(backend), log, longer, at);
    lemma_run_all_settles(docker_redhat_plan(backend), log, longer, at);
    lemma_run_all_settles(docker_script_plan(), log, longer, at);
    lemma_run_all_settles(seq![install_command(backend, "docker-desktop"@)], log, longer, at);
    lemma_run_all_settles(seq![install_command(backend, "docker"@)], log, longer, at);
    match run_all_model(docker_alpine_plan(backend), log, at) {
        ProgressModel::Finished(Ok(_), k) => {
            lemma_docker_steps_settle(log, longer, k);
        },
        _ => {},
    }
    match run_all_model(docker_redhat_plan(backend), log, at) {
        ProgressModel::Finished(Ok(_), k) => {
            lemma_docker_steps_settle(log, longer, k);
        },
        _ => {},
    }
    match docker_setup(os, backend, log, at) {
        ProgressModel::Finished(Ok(_), k) => {
            lemma_docker_steps_settle(log, longer, k);
        },
        _ => {},
    }
}

/// The checks of a verification, once finished, stay finished in the same way however
/// the log goes on.
pub proof fn lemma_docker_checks_settle(log: Seq<OutcomeModel>, longer: Seq<OutcomeModel>, at: int)
    requires
        continues(longer, log),
        0 <= at <= log.len(),
    ensures
        settled(docker_checks(log, at), docker_checks(longer, at), at, log.len() as int),
{
    lemma_version_check_settles("docker"@, docker_version_command(), log, longer, at);
    match version_check_model("docker"@, docker_version_command(), log, at) {
        ProgressModel::Finished(Ok(_), k) => {
            lemma_single_steps_settle(
                hello_world_command(),
                ActionModel::Run(hello_world_command()),
                "Docker installed but daemon may not be running"@,
                log,
                longer,
                k,
            );
        },
        _ => {},
    }
}

/// Docker, parameterized by the platform it is installed on.
#[derive(Debug, Clone, PartialEq, Eq)]
pub struct Docker {
    os_info: OsInfo,
}

impl Docker {
    pub fn new(os_info: OsInfo) -> (feature: Self)
        ensures
            feature.os() == os_info@,
    {
        Docker { os_info }
    }

    /// The platform the feature was made for.
    pub closed spec fn os(&self) -> OsModel {
        self.os_info@
    }

    /// Appends the engine, its client and the container runtime to `cmds`.
    fn push_packages<P: PackageManager>(package_manager: &P, cmds: &mut Vec<Command>)
        ensures
            final(cmds).deep_view() == old(cmds).deep_view() + docker_packages(
                package_manager.kind(),
            ),
    {
        cmds.push(package_manager.install_command("docker-ce"));
        cmds.push(package_manager.install_command("docker-ce-cli"));
        cmds.push(package_manager.install_command("containerd.io"));
        assert(cmds.deep_view() =~= old(cmds).deep_view() + docker_packages(
            package_manager.kind(),
        ));
    }

    /// Installs Docker on Ubuntu or Debian from the vendor's package repository.
    pub fn install_docker_ubuntu_debian<P: PackageManager>(
        &self,
        package_manager: &P,
        log: &Vec<Outcome>,
        at: usize,
    ) -> (r: Progress<Verdict>)
        ensures
            r@ == run_all_model(
                docker_debian_plan(package_manager.kind()),
                log.deep_view(),
                at as int,
            ),
    {
        let mut cmds: Vec<Command> = Vec::new();
        cmds.push(package_manager.update_command());
        cmds.push(package_manager.install_command("ca-certificates"));
        cmds.push(package_manager.install_command("curl"));
        cmds.push(package_manager.install_command("gnupg"));
        cmds.push(package_manager.install_command("lsb-release"));
        cmds.push(
            sudo_bash(
                "curl -fsSL https://download.docker.com/linux/ubuntu/gpg | sudo gpg --dearmor -o /usr/share/keyrings/docker-archive-keyring.gpg",
            ),
        );
        cmds.push(
            sudo_bash(
                "echo \"deb [arch=$(dpkg --print-architecture) signed-by=/usr/share/keyrings/docker-archive-keyring.gpg] https://download.docker.com/linux/ubuntu $(lsb_release -cs) stable\" | sudo tee /etc/apt/sources.list.d/docker.list > /dev/null",
            ),
        );
        cmds.push(package_manager.update_command());
        let ghost head = cmds.deep_view();
        Self::push_packages(package_manager, &mut cmds);
        assert(cmds.deep_view() =~= docker_debian_plan(package_manager.kind())) by {
            assert(head =~= docker_debian_plan(package_manager.kind()).subrange(0, 8));
        }
        run_all(&cmds, log, at)
    }

    /// Installs Docker on CentOS, RHEL or Fedora from the vendor's package repository,
    /// then starts the daemon.
    pub fn install_docker_centos_rhel<P: PackageManager>(
        &self,
        package_manager: &P,
        log: &Vec<Outcome>,
        at: usize,
    ) -> (r: Progress<Verdict>)
        ensures
            r@ == and_then(
                run_all_model(
                    docker_redhat_plan(package_manager.kind()),
                    log.deep_view(),
                    at as int,
                ),
                |k: int| start_service_model(log.deep_view(), k),
            ),
    {
        let mut cmds: Vec<Command> = Vec::new();
        cmds.push(package_manager.install_command("yum-utils"));
        let repo = sudo(
            "yum-config-manager",
            &["--add-repo", "https://download.docker.com/linux/centos/docker-ce.repo"],
        );
        assert(repo@.args =~= seq!["yum-config-manager"@] + seq![
            "--add-repo"@,
            "https://download.docker.com/linux/centos/docker-ce.repo"@,
        ]);
        cmds.push(repo);
        let ghost head = cmds.deep_view();
        Self::push_packages(package_manager, &mut cmds);
        assert(cmds.deep_view() =~= docker_redhat_plan(package_manager.kind())) by {
            assert(head =~= docker_redhat_plan(package_manager.kind()).subrange(0, 2));
        }
        match run_all(&cmds, log, at) {
            Progress::Finished(Ok(_), k) => self.start_docker_service(log, k),
            other => other,
        }
    }

    /// Installs Docker with the vendor's convenience script.
    pub fn install_docker_script(&self, log: &Vec<Outcome>, at: usize) -> (r: Progress<Verdict>)
        ensures
            r@ == run_all_model(docker_script_plan(), log.deep_view(), at as int),
    {
        let mut cmds: Vec<Command> = Vec::new();
        cmds.push(sudo_bash("curl -fsSL https://get.docker.com | sudo sh"));
        assert(cmds.deep_view() =~= docker_script_plan());
        run_all(&cmds, log, at)
    }

    /// Starts the daemon, through the service manager or else the older service tool.
    /// Never fails: a daemon that cannot be started is worth a warning only.
    pub fn start_docker_service(&self, log: &Vec<Outcome>, at: usize) -> (r: Progress<Verdict>)
        ensures
            r@ == start_service_model(log.deep_view(), at as int),
    {
        if at >= log.len() {
            let start = sudo("systemctl", &["start", "docker"]);
            assert(start@.args =~= seq!["systemctl"@] + seq!["start"@, "docker"@]);
            return Progress::Pending(Action::Run(start));
        }
        if log[at].succeeded() {
            let enable = sudo("systemctl", &["enable", "docker"]);
            assert(enable@.args =~= seq!["systemctl"@] + seq!["enable"@, "docker"@]);
            return ignored(enable, log, at + 1);
        }
        let service = sudo("service", &["docker", "start"]);
        assert(service@.args =~= seq!["service"@] + seq!["docker"@, "start"@]);
        best_effort(service, "Could not start Docker service automatically", log, at + 1)
    }

    /// Adds the current user to the group that may talk to the daemon.
    pub fn add_user_to_docker_group(&self, log: &Vec<Outcome>, at: usize) -> (r: Progress<Verdict>)
        ensures
            r@ == add_user_model(log.deep_view(), at as int),
    {
        let whoami = Command::new("whoami", &[]);
        assert(whoami@.args =~= Seq::<Seq<char>>::empty());
        if at >= log.len() {
            return Progress::Pending(Action::Run(whoami));
        }
        let outcome = &log[at];
        if !outcome.succeeded() {
            return Progress::Finished(Err(whoami.failure(outcome)), at + 1);
        }
        let username = trim(outcome.stdout(), Trim::Whitespace);
        let usermod = sudo("usermod", &["-aG", "docker", username]);
        assert(usermod@.args =~= seq!["usermod"@] + seq!["-aG"@, "docker"@, username@]);
        launch(usermod, log, at + 1)
    }

    /// Brings the engine onto the host in the way that fits the platform.
    fn setup<P: PackageManager>(&self, package_manager: &P, log: &Vec<Outcome>, at: usize) -> (r:
        Progress<Verdict>)
        ensures
            r@ == docker_setup(self.os(), package_manager.kind(), log.deep_view(), at as int),
    {
        let name = self.os_info.name.as_str();
        let mut cmds: Vec<Command> = Vec::new();
        match self.os_info.family {
            OsFamily::Linux => {
                if text_eq(name, "ubuntu") || text_eq(name, "debian") {
                    self.install_docker_ubuntu_debian(package_manager, log, at)
                } else if text_eq(name, "alpine") {
                    cmds.push(package_manager.install_command("docker"));
                    cmds.push(package_manager.install_command("docker-compose"));
                    assert(cmds.deep_view() =~= docker_alpine_plan(package_manager.kind()));
                    match run_all(&cmds, log, at) {
                        Progress::Finished(Ok(_), k) => self.start_docker_service(log, k),
                        other => other,
                    }
                } else if text_eq(name, "centos") || text_eq(name, "rhel") || text_eq(
                    name,
                    "fedora",
                ) {
                    self.install_docker_centos_rhel(package_manager, log, at)
                } else {
                    self.install_docker_script(log, at)
                }
            },
            OsFamily::Windows => {
                cmds.push(package_manager.install_command("docker-desktop"));
                assert(cmds.deep_view() =~= seq![
                    install_command(package_manager.kind(), "docker-desktop"@),
                ]);
                run_all(&cmds, log, at)
            },
            OsFamily::MacOs => {
                cmds.push(package_manager.install_command("docker"));
                assert(cmds.deep_view() =~= seq![
                    install_command(package_manager.kind(), "docker"@),
                ]);
                run_all(&cmds, log, at)
            },
            OsFamily::Unknown => Progress::Finished(Err(InstallError::UnsupportedPlatform), at),
        }
    }
}

impl Feature for Docker {
    open spec fn label(&self) -> Seq<char> {
        "docker"@
    }

    open spec fn summary(&self) -> Seq<char> {
        "Docker container runtime and CLI"@
    }

    open spec fn probe_model(&self, log: Seq<OutcomeModel>, at: int) -> ProgressModel<bool> {
        attempt_model(ActionModel::Run(docker_version_command()), log, at)
    }

    open spec fn strategy_model(&self, backend: BackendKind, log: Seq<OutcomeModel>, at: int)
        -> VerdictProgress {
        docker_strategy(self.os(), backend, log, at)
    }

    open spec fn checks_model(&self, log: Seq<OutcomeModel>, at: int) -> VerdictProgress {
        docker_checks(log, at)
    }

    fn name(&self) -> (name: &'static str) {
        "docker"
    }

    fn description(&self) -> (text: &'static str) {
        "Docker container runtime and CLI"
    }

    fn is_installed(&self, log: &Vec<Outcome>, at: usize) -> (r: Progress<bool>) {
        let cmd = Command::new("docker", &["--version"]);
        assert(cmd@.args =~= seq!["--version"@]);
        attempt(Action::Run(cmd), log, at)
    }

    fn install<P: PackageManager>(&self, package_manager: &P, log: &Vec<Outcome>, at: usize) -> (r:
        Progress<Verdict>) {
        let at = match self.is_installed(log, at) {
            Progress::Pending(action) => {
                return Progress::Pending(action);
            },
            Progress::Finished(present, k) => {
                if present {
                    return Progress::Finished(Ok(()), k);
                }
                k
            },
        };
        let at = match self.setup(package_manager, log, at) {
            Progress::Finished(Ok(_), k) => k,
            other => {
                return other;
            },
        };
        match self.os_info.family {
            OsFamily::Linux => self.add_user_to_docker_group(log, at),
            _ => Progress::Finished(Ok(()), at),
        }
    }

    fn verify(&self, log: &Vec<Outcome>, at: usize) -> (r: Progress<Verdict>) {
        let at = match self.is_installed(log, at) {
            Progress::Pending(action) => {
                return Progress::Pending(action);
            },
            Progress::Finished(present, k) => {
                if !present {
                    return Progress::Finished(
                        Err(
                            InstallError::VerificationFailed {
                                feature: String::from_str("docker"),
                            },
                        ),
                        k,
                    );
                }
                k
            },
        };
        let docker = Command::new("docker", &["--version"]);
        assert(docker@.args =~= seq!["--version"@]);
        let at = match version_check("docker", docker, log, at) {
            Progress::Finished(Ok(_), k) => k,
            other => {
                return other;
            },
        };
        let hello = Command::new("docker", &["run", "--rm", "hello-world"]);
        assert(hello@.args =~= seq!["run"@, "--rm"@, "hello-world"@]);
        best_effort(hello, "Docker installed but daemon may not be running", log, at)
    }
}

} // verus!
