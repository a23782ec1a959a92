//! The Docker sandbox: its settings, the command that runs a check in an
//! isolated container (no network, bounded memory and CPU, non-root user),
//! and the static screening of code for network access.
use vstd::prelude::*;
use crate::command::{unit_view, CommandOutcome, OutcomeView};
use crate::text::{contains, join_path, joined_path, owned, push_str, starts_with, str_contains, str_eq, trim, trimmed};

verus! {

/// Settings of the Docker sandbox.
#[derive(Debug, Clone)]
pub struct DockerSandboxConfig {
    /// Name of the Docker image.
    pub image_name: String,
    /// Directory of the sandbox crate (where the code is written).
    pub sandbox_dir: String,
    /// Path of the shared cargo cache.
    pub cargo_cache: String,
    /// Timeout in seconds.
    pub timeout_seconds: u64,
}

/// The default image name.
pub const DEFAULT_IMAGE: &'static str = "aether-sandbox:latest";
/// The default sandbox directory.
pub const DEFAULT_SANDBOX_DIR: &'static str = "/home/aether/sandbox";
/// The cargo cache used when `CARGO_HOME` is not set.
pub const DEFAULT_CARGO_CACHE: &'static str = "/home/aether/.cargo";

impl DockerSandboxConfig {
    /// The default settings, with the cargo cache at `cargo_home` (the value
    /// of `CARGO_HOME`) when it is set.
    pub fn with_cargo_home(cargo_home: Option<String>) -> (c: Self)
        ensures
            c.image_name@ == DEFAULT_IMAGE@,
            c.sandbox_dir@ == DEFAULT_SANDBOX_DIR@,
            c.cargo_cache@ == match cargo_home {
                Some(h) => h@,
                None => DEFAULT_CARGO_CACHE@,
            },
            c.timeout_seconds == 60,
    {
        DockerSandboxConfig {
            image_name: owned(DEFAULT_IMAGE),
            sandbox_dir: owned(DEFAULT_SANDBOX_DIR),
            cargo_cache: match cargo_home {
                Some(h) => h,
                None => owned(DEFAULT_CARGO_CACHE),
            },
            timeout_seconds: 60,
        }
    }
}

/// Result of a check in the sandbox.
#[derive(Debug, Clone)]
pub struct DockerCheckResult {
    pub success: bool,
    pub output: String,
    pub error: Option<String>,
}

/// The result of a container run: its standard output followed by its
/// error output, and the error output as the error when it failed.
pub fn check_result(success: bool, stdout: &str, stderr: &str) -> (r: DockerCheckResult)
    ensures
        r.success == success,
        r.output@ == stdout@ + stderr@,
        success ==> r.error is None,
        !success ==> (r.error matches Some(e) && e@ == stderr@),
{
    let mut output = owned(stdout);
    push_str(&mut output, stderr);
    DockerCheckResult { success, output, error: if success { None } else { Some(owned(stderr)) } }
}

/// Opening of the shell command: the timeout and the isolation flags.
pub const SCRIPT_HEAD: &'static str = "timeout 60 docker run --rm --network none --memory 512m --cpus 1.0 -v ";
/// Mount point of the sandbox in the container.
pub const SANDBOX_MOUNT: &'static str = ":/home/aether/sandbox -v ";
/// Mount point of the cargo cache, working directory and user.
pub const CACHE_MOUNT: &'static str = ":/home/aether/.cargo/registry -w /home/aether/sandbox -u aether ";
/// The command that checks the code.
pub const CARGO_CHECK: &'static str = "cargo check";
/// The command that runs the tests.
pub const CARGO_TEST: &'static str = "cargo test --lib";

/// The shell command that runs `command` in an isolated container with a
/// timeout of 60 seconds.
pub open spec fn docker_script(config: DockerSandboxConfig, command: Seq<char>) -> Seq<char> {
    SCRIPT_HEAD@ + config.sandbox_dir@ + SANDBOX_MOUNT@ + config.cargo_cache@ + CACHE_MOUNT@ + config.image_name@
        + seq![' '] + command
}

/// Builds the shell command that runs `command` in the sandbox container.
pub fn docker_run_script(config: &DockerSandboxConfig, command: &str) -> (s: String)
    ensures
        s@ == docker_script(*config, command@),
{
    let mut s = owned(SCRIPT_HEAD);
    push_str(&mut s, config.sandbox_dir.as_str());
    push_str(&mut s, SANDBOX_MOUNT);
    push_str(&mut s, config.cargo_cache.as_str());
    push_str(&mut s, CACHE_MOUNT);
    push_str(&mut s, config.image_name.as_str());
    s.push(' ');
    push_str(&mut s, command);
    s
}

/// Message when the image runs as another user.
pub const USER_MISMATCH: &'static str = "Usuari 'aether' no trobat a la imatge Docker (found: ";

/// Checks the output of `id -un` in the image against the expected user.
pub fn check_docker_user(output: &str, username: &str) -> (r: Result<(), String>)
    ensures
        r is Ok <==> trim(output@) == username@,
        r matches Err(e) ==> e@ == USER_MISMATCH@ + trim(output@) + seq![')'],
{
    let found = trimmed(output);
    if str_eq(found.as_str(), username) {
        Ok(())
    } else {
        let mut e = owned(USER_MISMATCH);
        push_str(&mut e, found.as_str());
        e.push(')');
        Err(e)
    }
}

/// The markers of network access, in the order they are looked for.
pub open spec fn network_keywords() -> Seq<Seq<char>> {
    seq![
        "std::net::"@,
        "reqwest::"@,
        "hyper::"@,
        "tokio::net::"@,
        "TcpStream::connect"@,
        "TcpListener::bind"@,
        "UdpSocket"@,
        "dns::"@,
    ]
}

/// The first marker of network access that `code` holds, looking from index `k`.
pub open spec fn first_network_keyword(code: Seq<char>, k: int) -> Option<Seq<char>>
    decreases network_keywords().len() - k,
{
    if k < 0 || k >= network_keywords().len() {
        None
    } else if contains(code, network_keywords()[k]) {
        Some(network_keywords()[k])
    } else {
        first_network_keyword(code, k + 1)
    }
}

/// Code is refused for network access exactly when it holds one of the
/// markers, and the marker named is one of them that it holds.
pub proof fn lemma_network_screen(code: Seq<char>, k: int)
    requires
        0 <= k <= network_keywords().len(),
    ensures
        first_network_keyword(code, k) is None <==> forall|j: int| k <= j < network_keywords().len()
            ==> !contains(code, #[trigger] network_keywords()[j]),
        first_network_keyword(code, k) matches Some(w) ==> contains(code, w) && network_keywords().contains(w),
    decreases network_keywords().len() - k,
{
    if k < network_keywords().len() {
        lemma_network_screen(code, k + 1);
        if let Some(w) = first_network_keyword(code, k) {
            if contains(code, network_keywords()[k]) {
                assert(network_keywords()[k] == w);
            }
        }
    }
}

/// Prefix of the message about code with network access.
pub const NETWORK_DETECTED: &'static str = "Codi detectat amb possible accés a xarxa: ";

/// Screens code for network access before it runs: it is refused, naming
/// the first marker found, when it holds any of the markers.
pub fn check_no_network_code(code: &str) -> (r: Result<(), String>)
    ensures
        match first_network_keyword(code@, 0) {
            None => r is Ok,
            Some(k) => r matches Err(e) && e@ == NETWORK_DETECTED@ + k,
        },
{
    let keywords: [&str; 8] = [
        "std::net::",
        "reqwest::",
        "hyper::",
        "tokio::net::",
        "TcpStream::connect",
        "TcpListener::bind",
        "UdpSocket",
        "dns::",
    ];
    assert(keywords@.map_values(|s: &str| s@) =~= network_keywords());
    let mut i: usize = 0;
    while i < 8
        invariant
            i <= 8,
            keywords@.map_values(|s: &str| s@) == network_keywords(),
            first_network_keyword(code@, 0) == first_network_keyword(code@, i as int),
        decreases 8 - i,
    {
        assert(keywords@[i as int]@ == network_keywords()[i as int]);
        if str_contains(code, keywords[i]) {
            let mut e = owned(NETWORK_DETECTED);
            push_str(&mut e, keywords[i]);
            return Err(e);
        }
        i = i + 1;
    }
    Ok(())
}


// ---------------------------------------------------------------------------
// Running code in the sandbox: the decisions between the outside steps
// ---------------------------------------------------------------------------

/// Prefix of the message when the image could not be inspected.
pub const INSPECT_ERROR: &'static str = "Error comprovant imatge: ";
/// Prefix of the message when `docker build` could not run.
pub const BUILD_RUN_ERROR: &'static str = "Error executant docker build: ";
/// Prefix of the message when `docker build` failed.
pub const BUILD_FAILED: &'static str = "Error construint imatge Docker: ";
/// Prefix of the message of a check whose image could not be built.
pub const DOCKER_UNAVAILABLE: &'static str = "Docker no disponible: ";
/// Prefix of the message when the image's user could not be read.
pub const USER_RUN_ERROR: &'static str = "Error verificant usuari: ";
/// Prefix of the message of a check whose image runs as another user.
pub const WRONG_USER: &'static str = "Docker image sense usuari correcte: ";
/// Prefix of the message when the sandbox directories could not be created.
pub const DIR_ERROR: &'static str = "Error creant directoris: ";
/// Prefix of the message when the code could not be written.
pub const WRITE_CODE_ERROR: &'static str = "Error escrivint codi: ";
/// Prefix of the message when the container of a check could not run.
pub const RUN_CHECK_ERROR: &'static str = "Error executant docker run: ";
/// Prefix of the message when the container of a test run could not run.
pub const RUN_TEST_ERROR: &'static str = "Error executant docker test: ";
/// The user the sandbox image must run as.
pub const SANDBOX_USER: &'static str = "aether";
/// The directory of the sources in the sandbox crate.
pub const SRC_DIR: &'static str = "src";
/// The file the code is written to.
pub const MAIN_FILE: &'static str = "main.rs";

/// Does the image exist, from the outcome of `docker image inspect`?
pub open spec fn image_exists_result(o: OutcomeView) -> Result<bool, Seq<char>> {
    match o {
        OutcomeView::NotRun(e) => Err(INSPECT_ERROR@ + e),
        OutcomeView::Ran { success, .. } => Ok(success),
    }
}

/// Does the image exist, from the outcome of `docker image inspect <image>`?
pub fn image_exists_outcome(o: &CommandOutcome) -> (r: Result<bool, String>)
    ensures
        match image_exists_result(o@) {
            Ok(b) => r == Ok::<bool, String>(b),
            Err(e) => r matches Err(m) && m@ == e,
        },
{
    match o {
        CommandOutcome::NotRun(e) => {
            let mut m = owned(INSPECT_ERROR);
            push_str(&mut m, e.as_str());
            Err(m)
        },
        CommandOutcome::Ran { success, .. } => Ok(*success),
    }
}

/// Was the image built, from the outcome of `docker build`?
pub open spec fn build_image_result(o: OutcomeView) -> Result<(), Seq<char>> {
    match o {
        OutcomeView::NotRun(e) => Err(BUILD_RUN_ERROR@ + e),
        OutcomeView::Ran { success, stderr, .. } => if success {
            Ok(())
        } else {
            Err(BUILD_FAILED@ + stderr)
        },
    }
}

/// Was the image built, from the outcome of `docker build -t <image> .`?
pub fn build_image_outcome(o: &CommandOutcome) -> (r: Result<(), String>)
    ensures
        unit_view(r) == build_image_result(o@),
{
    match o {
        CommandOutcome::NotRun(e) => {
            let mut m = owned(BUILD_RUN_ERROR);
            push_str(&mut m, e.as_str());
            Err(m)
        },
        CommandOutcome::Ran { success, stderr, .. } => {
            if *success {
                Ok(())
            } else {
                let mut m = owned(BUILD_FAILED);
                push_str(&mut m, stderr.as_str());
                Err(m)
            }
        },
    }
}

/// Does the image run as `username`, from the outcome of `id -un` in it?
pub open spec fn user_result(o: OutcomeView, username: Seq<char>) -> Result<(), Seq<char>> {
    match o {
        OutcomeView::NotRun(e) => Err(USER_RUN_ERROR@ + e),
        OutcomeView::Ran { stdout, .. } => if trim(stdout) == username {
            Ok(())
        } else {
            Err(USER_MISMATCH@ + trim(stdout) + seq![')'])
        },
    }
}

/// Does the image run as `username`, from the outcome of `docker run --rm <image> id -un`?
pub fn user_outcome(o: &CommandOutcome, username: &str) -> (r: Result<(), String>)
    ensures
        unit_view(r) == user_result(o@, username@),
{
    match o {
        CommandOutcome::NotRun(e) => {
            let mut m = owned(USER_RUN_ERROR);
            push_str(&mut m, e.as_str());
            Err(m)
        },
        CommandOutcome::Ran { stdout, .. } => check_docker_user(stdout.as_str(), username),
    }
}

/// What a sandbox run does in the container.
#[derive(Debug, Clone, Copy, PartialEq, Eq, Structural)]
pub enum SandboxMode {
    /// `cargo check`, in an image whose user is verified first.
    Check,
    /// `cargo test --lib`.
    Test,
}

/// What writing the code to the sandbox gave.
#[derive(Debug, Clone)]
pub enum WriteOutcome {
    Written,
    /// The directories could not be created; why.
    DirFailed(String),
    /// The file could not be written; why.
    WriteFailed(String),
}

/// An outcome handed to a sandbox run.
#[derive(Debug, Clone)]
pub enum SandboxEvent {
    Started,
    /// `docker image inspect` finished.
    Inspected(CommandOutcome),
    /// `docker build` finished.
    Built(CommandOutcome),
    /// `id -un` in the image finished.
    UserChecked(CommandOutcome),
    /// The code was written, or not.
    Written(WriteOutcome),
    /// The container ran, or not.
    Ran(CommandOutcome),
}

/// What the caller has to do next.
#[derive(Debug)]
pub enum SandboxAction {
    /// Run `docker image inspect <image>`.
    InspectImage { image: String },
    /// Run `docker build -t <image> .` in the directory with the Dockerfile.
    BuildImage { image: String },
    /// Run `docker run --rm <image> id -un`.
    VerifyUser { image: String },
    /// Create the directories of `path` and write `code` to it.
    WriteCode { path: String, code: String },
    /// Run this command with `sh -c`.
    RunScript { script: String },
    /// The run is over.
    Finish(Result<DockerCheckResult, String>),
}

/// Where a sandbox run stands.
#[derive(Debug, Clone, Copy, PartialEq, Eq, Structural)]
pub enum SandboxPhase {
    Idle,
    Inspecting,
    Building,
    VerifyingUser,
    Writing,
    Running,
    Done,
}

/// Model of what writing the code gave.
pub enum WriteView {
    Written,
    DirFailed(Seq<char>),
    WriteFailed(Seq<char>),
}

/// Model of an event.
pub enum SandboxEventView {
    Started,
    Inspected(OutcomeView),
    Built(OutcomeView),
    UserChecked(OutcomeView),
    Written(WriteView),
    Ran(OutcomeView),
}

/// Model of a sandbox result.
pub struct CheckResultView {
    pub success: bool,
    pub output: Seq<char>,
    pub error: Option<Seq<char>>,
}

/// Model of an action.
pub enum SandboxActionView {
    InspectImage { image: Seq<char> },
    BuildImage { image: Seq<char> },
    VerifyUser { image: Seq<char> },
    WriteCode { path: Seq<char>, code: Seq<char> },
    RunScript { script: Seq<char> },
    Finish(Result<CheckResultView, Seq<char>>),
}

impl View for DockerCheckResult {
    type V = CheckResultView;

    open spec fn view(&self) -> CheckResultView {
        CheckResultView {
            success: self.success,
            output: self.output@,
            error: match self.error {
                Some(e) => Some(e@),
                None => None,
            },
        }
    }
}

impl View for SandboxEvent {
    type V = SandboxEventView;

    open spec fn view(&self) -> SandboxEventView {
        match self {
            SandboxEvent::Started => SandboxEventView::Started,
            SandboxEvent::Inspected(o) => SandboxEventView::Inspected(o@),
            SandboxEvent::Built(o) => SandboxEventView::Built(o@),
            SandboxEvent::UserChecked(o) => SandboxEventView::UserChecked(o@),
            SandboxEvent::Written(w) => SandboxEventView::Written(
                match w {
                    WriteOutcome::Written => WriteView::Written,
                    WriteOutcome::DirFailed(e) => WriteView::DirFailed(e@),
                    WriteOutcome::WriteFailed(e) => WriteView::WriteFailed(e@),
                },
            ),
            SandboxEvent::Ran(o) => SandboxEventView::Ran(o@),
        }
    }
}

impl View for SandboxAction {
    type V = SandboxActionView;

    open spec fn view(&self) -> SandboxActionView {
        match self {
            SandboxAction::InspectImage { image } => SandboxActionView::InspectImage { image: image@ },
            SandboxAction::BuildImage { image } => SandboxActionView::BuildImage { image: image@ },
            SandboxAction::VerifyUser { image } => SandboxActionView::VerifyUser { image: image@ },
            SandboxAction::WriteCode { path, code } => SandboxActionView::WriteCode { path: path@, code: code@ },
            SandboxAction::RunScript { script } => SandboxActionView::RunScript { script: script@ },
            SandboxAction::Finish(r) => SandboxActionView::Finish(
                match r {
                    Ok(c) => Ok(c@),
                    Err(e) => Err(e@),
                },
            ),
        }
    }
}

/// Model of a sandbox run.
pub struct SandboxModel {
    pub phase: SandboxPhase,
    pub mode: SandboxMode,
    pub config: DockerSandboxConfig,
    pub code: Seq<char>,
    /// Has the image's user been verified?
    pub user_verified: bool,
}

/// One run of code in the sandbox (`cargo check` or `cargo test --lib`).
pub struct SandboxRun {
    phase: SandboxPhase,
    mode: SandboxMode,
    config: DockerSandboxConfig,
    code: String,
    user_verified: Ghost<bool>,
}

impl View for SandboxRun {
    type V = SandboxModel;

    closed spec fn view(&self) -> SandboxModel {
        SandboxModel {
            phase: self.phase,
            mode: self.mode,
            config: self.config,
            code: self.code@,
            user_verified: self.user_verified@,
        }
    }
}

/// Does a run in phase `p` take event `e`?
pub open spec fn sandbox_accepts(p: SandboxPhase, e: SandboxEventView) -> bool {
    match e {
        SandboxEventView::Started => p == SandboxPhase::Idle,
        SandboxEventView::Inspected(_) => p == SandboxPhase::Inspecting,
        SandboxEventView::Built(_) => p == SandboxPhase::Building,
        SandboxEventView::UserChecked(_) => p == SandboxPhase::VerifyingUser,
        SandboxEventView::Written(_) => p == SandboxPhase::Writing,
        SandboxEventView::Ran(_) => p == SandboxPhase::Running,
    }
}

/// The file of the sandbox crate that receives the code.
pub open spec fn main_path(config: DockerSandboxConfig) -> Seq<char> {
    joined_path(joined_path(config.sandbox_dir@, SRC_DIR@), MAIN_FILE@)
}

/// The command a run executes in the container.
pub open spec fn mode_command(mode: SandboxMode) -> Seq<char> {
    match mode {
        SandboxMode::Check => CARGO_CHECK@,
        SandboxMode::Test => CARGO_TEST@,
    }
}

/// The step after the image is known to exist: verify its user (a check) or
/// write the code (a test run).
pub open spec fn after_image(m: SandboxModel) -> (SandboxModel, SandboxActionView) {
    match m.mode {
        SandboxMode::Check => (
            SandboxModel { phase: SandboxPhase::VerifyingUser, ..m },
            SandboxActionView::VerifyUser { image: m.config.image_name@ },
        ),
        SandboxMode::Test => (
            SandboxModel { phase: SandboxPhase::Writing, ..m },
            SandboxActionView::WriteCode { path: main_path(m.config), code: m.code },
        ),
    }
}

/// One decision of a sandbox run.
pub open spec fn sandbox_step(m: SandboxModel, e: SandboxEventView) -> (SandboxModel, SandboxActionView) {
    let done = SandboxModel { phase: SandboxPhase::Done, ..m };
    match e {
        SandboxEventView::Started => (
            SandboxModel { phase: SandboxPhase::Inspecting, ..m },
            SandboxActionView::InspectImage { image: m.config.image_name@ },
        ),
        SandboxEventView::Inspected(o) => match image_exists_result(o) {
            Err(msg) => (done, SandboxActionView::Finish(Err(msg))),
            Ok(true) => after_image(m),
            Ok(false) => (
                SandboxModel { phase: SandboxPhase::Building, ..m },
                SandboxActionView::BuildImage { image: m.config.image_name@ },
            ),
        },
        SandboxEventView::Built(o) => match build_image_result(o) {
            Err(msg) => (
                done,
                SandboxActionView::Finish(
                    Err(
                        match m.mode {
                            SandboxMode::Check => DOCKER_UNAVAILABLE@ + msg,
                            SandboxMode::Test => msg,
                        },
                    ),
                ),
            ),
            Ok(_) => after_image(m),
        },
        SandboxEventView::UserChecked(o) => match user_result(o, SANDBOX_USER@) {
            Err(msg) => (done, SandboxActionView::Finish(Err(WRONG_USER@ + msg))),
            Ok(_) => (
                SandboxModel { phase: SandboxPhase::Writing, user_verified: true, ..m },
                SandboxActionView::WriteCode { path: main_path(m.config), code: m.code },
            ),
        },
        SandboxEventView::Written(w) => match w {
            WriteView::DirFailed(why) => (done, SandboxActionView::Finish(Err(DIR_ERROR@ + why))),
            WriteView::WriteFailed(why) => (done, SandboxActionView::Finish(Err(WRITE_CODE_ERROR@ + why))),
            WriteView::Written => (
                SandboxModel { phase: SandboxPhase::Running, ..m },
                SandboxActionView::RunScript { script: docker_script(m.config, mode_command(m.mode)) },
            ),
        },
        SandboxEventView::Ran(o) => match o {
            OutcomeView::NotRun(why) => (
                done,
                SandboxActionView::Finish(
                    Err(
                        match m.mode {
                            SandboxMode::Check => RUN_CHECK_ERROR@ + why,
                            SandboxMode::Test => RUN_TEST_ERROR@ + why,
                        },
                    ),
                ),
            ),
            OutcomeView::Ran { success, stdout, stderr } => (
                done,
                SandboxActionView::Finish(
                    Ok(
                        CheckResultView {
                            success,
                            output: stdout + stderr,
                            error: if success {
                                None
                            } else {
                                Some(stderr)
                            },
                        },
                    ),
                ),
            ),
        },
    }
}

/// `p` followed by `e`.
fn prefixed(p: &str, e: &str) -> (m: String)
    ensures
        m@ == p@ + e@,
{
    let mut m = owned(p);
    push_str(&mut m, e);
    m
}

impl SandboxRun {
    /// Every run's state satisfies the invariant of a run.
    #[verifier::type_invariant]
    spec fn wf(self) -> bool {
        sandbox_inv(self@)
    }

    /// A run of `code` in the sandbox of `config`, in `mode`.
    pub fn new(config: DockerSandboxConfig, code: &str, mode: SandboxMode) -> (r: Self)
        ensures
            r@ == (SandboxModel {
                phase: SandboxPhase::Idle,
                mode,
                config,
                code: code@,
                user_verified: false,
            }),
    {
        SandboxRun { phase: SandboxPhase::Idle, mode, config, code: owned(code), user_verified: Ghost(false) }
    }

    /// The phase of the run.
    pub fn phase(&self) -> (p: SandboxPhase)
        ensures
            p == self@.phase,
    {
        self.phase
    }

    /// The step after the image is known to exist.
    fn after_image(self) -> (r: (Self, SandboxAction))
        ensures
            (r.0@, r.1@) == after_image(self@),
    {
        match self.mode {
            SandboxMode::Check => {
                let image = self.config.image_name.clone();
                (SandboxRun { phase: SandboxPhase::VerifyingUser, ..self }, SandboxAction::VerifyUser { image })
            },
            SandboxMode::Test => {
                let path = join_path(join_path(self.config.sandbox_dir.as_str(), SRC_DIR).as_str(), MAIN_FILE);
                let code = self.code.clone();
                (SandboxRun { phase: SandboxPhase::Writing, ..self }, SandboxAction::WriteCode { path, code })
            },
        }
    }

    /// Ends the run.
    fn finish(self, r: Result<DockerCheckResult, String>) -> (out: (Self, SandboxAction))
        ensures
            out.0@ == (SandboxModel { phase: SandboxPhase::Done, ..self@ }),
            out.1 == SandboxAction::Finish(r),
    {
        (SandboxRun { phase: SandboxPhase::Done, ..self }, SandboxAction::Finish(r))
    }

    /// Takes one outcome and decides what comes next. Of every run: each
    /// step goes further, so a run ends after at most six steps; and the code
    /// runs only in a container without network, and in a check only once
    /// the image's user was verified.
    pub fn step(self, event: SandboxEvent) -> (r: (Self, SandboxAction))
        requires
            sandbox_accepts(self@.phase, event@),
        ensures
            (r.0@, r.1@) == sandbox_step(self@, event@),
            sandbox_rank(r.0@.phase) > sandbox_rank(self@.phase),
            r.1@ matches SandboxActionView::RunScript { script } ==> (self@.mode == SandboxMode::Check
                ==> self@.user_verified) && script == docker_script(self@.config, mode_command(self@.mode))
                && starts_with(script, SCRIPT_HEAD@),
            event@ matches SandboxEventView::Ran(OutcomeView::Ran { success, stdout, stderr }) ==> (r.1@
                matches SandboxActionView::Finish(Ok(c)) && c.success == success && c.output == stdout + stderr
                && (c.error is None <==> success) && (!success ==> c.error == Some(stderr))),
    {
        proof {
            use_type_invariant(&self);
            lemma_sandbox_step(self@, event@);
            if let SandboxEventView::Ran(OutcomeView::Ran { success, stdout, stderr }) = event@ {
                lemma_run_verdict_is_exit_status(self@, success, stdout, stderr);
            }
        }
        match event {
            SandboxEvent::Started => {
                let image = self.config.image_name.clone();
                (SandboxRun { phase: SandboxPhase::Inspecting, ..self }, SandboxAction::InspectImage { image })
            },
            SandboxEvent::Inspected(o) => match image_exists_outcome(&o) {
                Err(msg) => self.finish(Err(msg)),
                Ok(exists) => {
                    if exists {
                        self.after_image()
                    } else {
                        let image = self.config.image_name.clone();
                        (SandboxRun { phase: SandboxPhase::Building, ..self }, SandboxAction::BuildImage { image })
                    }
                },
            },
            SandboxEvent::Built(o) => match build_image_outcome(&o) {
                Err(msg) => {
                    let m = match self.mode {
                        SandboxMode::Check => prefixed(DOCKER_UNAVAILABLE, msg.as_str()),
                        SandboxMode::Test => msg,
                    };
                    self.finish(Err(m))
                },
                Ok(_) => self.after_image(),
            },
            SandboxEvent::UserChecked(o) => match user_outcome(&o, SANDBOX_USER) {
                Err(msg) => self.finish(Err(prefixed(WRONG_USER, msg.as_str()))),
                Ok(_) => {
                    let path = join_path(join_path(self.config.sandbox_dir.as_str(), SRC_DIR).as_str(), MAIN_FILE);
                    let code = self.code.clone();
                    (
                        SandboxRun { phase: SandboxPhase::Writing, user_verified: Ghost(true), ..self },
                        SandboxAction::WriteCode { path, code },
                    )
                },
            },
            SandboxEvent::Written(w) => match w {
                WriteOutcome::DirFailed(why) => self.finish(Err(prefixed(DIR_ERROR, why.as_str()))),
                WriteOutcome::WriteFailed(why) => self.finish(Err(prefixed(WRITE_CODE_ERROR, why.as_str()))),
                WriteOutcome::Written => {
                    let command = match self.mode {
                        SandboxMode::Check => CARGO_CHECK,
                        SandboxMode::Test => CARGO_TEST,
                    };
                    let script = docker_run_script(&self.config, command);
                    (SandboxRun { phase: SandboxPhase::Running, ..self }, SandboxAction::RunScript { script })
                },
            },
            SandboxEvent::Ran(o) => match o {
                CommandOutcome::NotRun(why) => {
                    let m = match self.mode {
                        SandboxMode::Check => prefixed(RUN_CHECK_ERROR, why.as_str()),
                        SandboxMode::Test => prefixed(RUN_TEST_ERROR, why.as_str()),
                    };
                    self.finish(Err(m))
                },
                CommandOutcome::Ran { success, stdout, stderr } => {
                    let c = check_result(success, stdout.as_str(), stderr.as_str());
                    self.finish(Ok(c))
                },
            },
        }
    }
}

// ---------------------------------------------------------------------------
// Laws of a sandbox run
// ---------------------------------------------------------------------------

/// How far a run has gone; every step goes further.
pub open spec fn sandbox_rank(p: SandboxPhase) -> int {
    match p {
        SandboxPhase::Idle => 0,
        SandboxPhase::Inspecting => 1,
        SandboxPhase::Building => 2,
        SandboxPhase::VerifyingUser => 3,
        SandboxPhase::Writing => 4,
        SandboxPhase::Running => 5,
        SandboxPhase::Done => 6,
    }
}

/// What holds in every state of a run: a check writes and runs the code only
/// in an image whose user it verified.
pub open spec fn sandbox_inv(m: SandboxModel) -> bool {
    m.mode == SandboxMode::Check && (m.phase == SandboxPhase::Writing || m.phase == SandboxPhase::Running)
        ==> m.user_verified
}

/// Every step of a run keeps its invariant, goes further (so a run ends
/// after at most six steps), and the code runs in a check only once the
/// image's user was verified; the container always runs without network.
pub proof fn lemma_sandbox_step(m: SandboxModel, e: SandboxEventView)
    requires
        sandbox_inv(m),
        sandbox_accepts(m.phase, e),
    ensures
        sandbox_inv(sandbox_step(m, e).0),
        sandbox_rank(sandbox_step(m, e).0.phase) > sandbox_rank(m.phase),
        sandbox_step(m, e).0.mode == m.mode,
        sandbox_step(m, e).0.code == m.code,
        (sandbox_step(m, e).1 matches SandboxActionView::RunScript { script } ==> (m.mode == SandboxMode::Check
            ==> m.user_verified) && script == docker_script(m.config, mode_command(m.mode))
            && starts_with(script, SCRIPT_HEAD@)),
{
    if let SandboxActionView::RunScript { script } = sandbox_step(m, e).1 {
        let t = SCRIPT_HEAD@ + m.config.sandbox_dir@ + SANDBOX_MOUNT@ + m.config.cargo_cache@ + CACHE_MOUNT@
            + m.config.image_name@ + seq![' '] + mode_command(m.mode);
        assert(t.subrange(0, SCRIPT_HEAD@.len() as int) =~= SCRIPT_HEAD@);
    }
}

/// Once the container ran, the run ends with its result, and that result
/// succeeds exactly when the container's exit status did, whatever the error
/// output holds (cargo prints its progress there): the output is the
/// standard output followed by the error output, and the error output is
/// the error exactly when the exit status failed.
pub proof fn lemma_run_verdict_is_exit_status(m: SandboxModel, success: bool, stdout: Seq<char>, stderr: Seq<char>)
    requires
        m.phase == SandboxPhase::Running,
    ensures
        sandbox_step(m, SandboxEventView::Ran(OutcomeView::Ran { success, stdout, stderr })).0.phase
            == SandboxPhase::Done,
        sandbox_step(m, SandboxEventView::Ran(OutcomeView::Ran { success, stdout, stderr })).1
            matches SandboxActionView::Finish(Ok(c)) && c.success == success && c.output == stdout + stderr
            && (c.error is None <==> success) && (!success ==> c.error == Some(stderr)),
{
}

/// A run starts in a state that satisfies its invariant.
pub proof fn lemma_sandbox_initial(config: DockerSandboxConfig, code: Seq<char>, mode: SandboxMode)
    ensures
        sandbox_inv(SandboxModel { phase: SandboxPhase::Idle, mode, config, code, user_verified: false }),
{
}

} // verus!
