//! The lifecycle of an embedded Sedna server: the programs it runs and the
//! startup sequence, as a machine that decides each step from what the
//! previous one reported.
use vstd::prelude::*;

use crate::config::{generate_sedna_config, sedna_config, MAX_LISTENER_PORT};
use crate::error::{SednaError, SednaErrorView};
use crate::text::{decimal, decode_lossy, push_decimal, utf8_lossy};

verus! {

/// The host the server listens on and clients connect to.
pub const SERVER_HOST: &'static str = "localhost";

/// The database that every embedded server creates and starts.
pub const DATABASE_NAME: &'static str = "testdb";

/// The name of the configuration file inside the configuration directory.
pub const CONFIG_FILE_NAME: &'static str = "sednaconf.xml";

/// The environment variable that tells the Sedna tools their install root.
pub const INSTALL_ENV_VAR: &'static str = "SEDNA_INSTALL";

/// The environment variable that tells the Sedna tools their configuration.
pub const CONFIG_ENV_VAR: &'static str = "CONFIG_FILE";

/// How many times the listener port is tried before startup gives up.
pub const PROBE_ATTEMPTS: u32 = 50;

/// The pause after each unanswered try of the listener port, in milliseconds.
pub const PROBE_INTERVAL_MS: u64 = 100;

/// How many times the governor's port is tried, while it sets up its shared
/// memory, before startup moves on regardless.
pub const SETTLE_ATTEMPTS: u32 = 20;

/// The pause after each unanswered try of the governor's port, in
/// milliseconds; all pauses together come to at most two seconds.
pub const SETTLE_INTERVAL_MS: u64 = 100;

/// The Sedna command-line programs that the server runs.
#[derive(Debug, Clone, Copy, PartialEq, Eq, Structural)]
pub enum Tool {
    /// `se_gov`, the governor.
    Governor,
    /// `se_cdb`, which creates the database.
    CreateDatabase,
    /// `se_sm`, which starts the database's session manager.
    StartDatabase,
    /// `se_stop`, which stops the server.
    Stop,
}

/// The program file of `tool`, relative to the binary directory.
pub open spec fn tool_program(tool: Tool) -> Seq<char> {
    match tool {
        Tool::Governor => "./se_gov"@,
        Tool::CreateDatabase => "./se_cdb"@,
        Tool::StartDatabase => "./se_sm"@,
        Tool::Stop => "./se_stop"@,
    }
}

/// The arguments `tool` is run with.
pub open spec fn tool_args(tool: Tool) -> Seq<Seq<char>> {
    match tool {
        Tool::Governor => seq!["-background-mode"@, "on"@, "-el-level"@, "4"@],
        Tool::CreateDatabase => seq![DATABASE_NAME@],
        Tool::StartDatabase => seq![DATABASE_NAME@],
        Tool::Stop => Seq::empty(),
    }
}

/// A program to run and its arguments.
pub struct ToolInvocation {
    pub program: String,
    pub args: Vec<String>,
}

/// The texts of a list of strings.
pub open spec fn texts(v: Seq<String>) -> Seq<Seq<char>> {
    v.map_values(|s: String| s@)
}

/// How `tool` is run.
pub fn invocation(tool: Tool) -> (inv: ToolInvocation)
    ensures
        inv.program@ == tool_program(tool),
        texts(inv.args@) == tool_args(tool),
{
    let mut args: Vec<String> = Vec::new();
    let program = match tool {
        Tool::Governor => {
            args.push(String::from_str("-background-mode"));
            args.push(String::from_str("on"));
            args.push(String::from_str("-el-level"));
            args.push(String::from_str("4"));
            String::from_str("./se_gov")
        },
        Tool::CreateDatabase => {
            args.push(String::from_str(DATABASE_NAME));
            String::from_str("./se_cdb")
        },
        Tool::StartDatabase => {
            args.push(String::from_str(DATABASE_NAME));
            String::from_str("./se_sm")
        },
        Tool::Stop => String::from_str("./se_stop"),
    };
    assert(texts(args@) =~= tool_args(tool));
    ToolInvocation { program, args }
}

/// The path of the configuration file inside the configuration directory
/// `dir`, joined as `Path::join` joins a relative name: with a `/` between
/// them unless `dir` is empty or already ends in one.
pub open spec fn config_file_path(dir: Seq<char>) -> Seq<char> {
    if dir.len() == 0 || dir.last() == '/' {
        dir + CONFIG_FILE_NAME@
    } else {
        dir + "/"@ + CONFIG_FILE_NAME@
    }
}

/// The path of the configuration file inside the configuration directory.
pub fn config_file_in(dir: &str) -> (path: String)
    ensures
        path@ == config_file_path(dir@),
{
    let n: usize = dir.unicode_len();
    let mut path = String::from_str(dir);
    if n > 0 && dir.get_char(n - 1) == '/' {
        path.append(CONFIG_FILE_NAME);
    } else {
        if n > 0 {
            path.append("/");
        }
        path.append(CONFIG_FILE_NAME);
        proof {
            if n > 0 {
                assert(path@ =~= dir@ + "/"@ + CONFIG_FILE_NAME@);
            }
        }
    }
    path
}

/// Where the Sedna programs run and what they are told: the working
/// directory and the environment variables, by name and value.
pub struct ToolEnvironment {
    pub working_dir: String,
    pub variables: Vec<(String, String)>,
}

/// The address that is tried to see whether the server on `port` listens.
pub open spec fn probe_address(port: nat) -> Seq<char> {
    SERVER_HOST@ + ":"@ + decimal(port)
}

/// The stages of starting a server, in order.
#[derive(Debug, Clone, Copy, PartialEq, Eq, Structural)]
pub enum Phase {
    /// Make the Sedna programs available.
    Binaries,
    /// Create the temporary data directory.
    DataDir,
    /// Create the temporary configuration directory.
    ConfigDir,
    /// Create `data` inside the data directory.
    DataSubdir,
    /// Create `cfg` inside the data directory.
    ConfigSubdir,
    /// Write the configuration file.
    WriteConfig,
    /// Run the governor.
    Governor,
    /// Try the governor's port to see whether it has settled.
    Settle,
    /// Pause after an unanswered try of the governor's port.
    SettleBackoff,
    /// Create the database.
    CreateDatabase,
    /// Start the database.
    StartDatabase,
    /// Try the listener port.
    Probe,
    /// Pause after an unanswered try.
    Backoff,
    /// The server is up.
    Ready,
    /// Startup failed.
    Failed,
}

/// The two temporary directories of a server.
#[derive(Debug, Clone, Copy, PartialEq, Eq, Structural)]
pub enum ScratchDir {
    Data,
    Config,
}

/// The directories made inside the data directory.
#[derive(Debug, Clone, Copy, PartialEq, Eq, Structural)]
pub enum Subdir {
    /// `data`
    Data,
    /// `cfg`
    Cfg,
}

/// The name of a directory made inside the data directory.
pub fn subdir_name(dir: Subdir) -> (name: &'static str)
    ensures
        dir == Subdir::Data ==> name@ == "data"@,
        dir == Subdir::Cfg ==> name@ == "cfg"@,
{
    match dir {
        Subdir::Data => "data",
        Subdir::Cfg => "cfg",
    }
}

/// What the startup asks of its driver next.
pub enum StartupAction {
    /// Make the Sedna programs available; report their directory with
    /// `BinariesReady`.
    PrepareBinaries,
    /// Create a temporary directory; report its path with `DirCreated`.
    CreateScratchDir(ScratchDir),
    /// Create a directory inside the data directory.
    CreateSubdir(Subdir),
    /// Write this text to the configuration file.
    WriteConfig(String),
    /// Run a program and report how it exited.
    RunTool(Tool),
    /// Pause for this many milliseconds.
    Sleep(u64),
    /// Try to connect to this address and report whether it answered.
    ProbePort(String),
    /// Nothing more is to be done: the outcome is ready.
    Finish,
}

/// The mathematical value of a `StartupAction`.
pub enum StartupActionView {
    PrepareBinaries,
    CreateScratchDir(ScratchDir),
    CreateSubdir(Subdir),
    WriteConfig(Seq<char>),
    RunTool(Tool),
    Sleep(nat),
    ProbePort(Seq<char>),
    Finish,
}

impl View for StartupAction {
    type V = StartupActionView;

    open spec fn view(&self) -> StartupActionView {
        match self {
            StartupAction::PrepareBinaries => StartupActionView::PrepareBinaries,
            StartupAction::CreateScratchDir(d) => StartupActionView::CreateScratchDir(*d),
            StartupAction::CreateSubdir(d) => StartupActionView::CreateSubdir(*d),
            StartupAction::WriteConfig(t) => StartupActionView::WriteConfig(t@),
            StartupAction::RunTool(t) => StartupActionView::RunTool(*t),
            StartupAction::Sleep(ms) => StartupActionView::Sleep(*ms as nat),
            StartupAction::ProbePort(a) => StartupActionView::ProbePort(a@),
            StartupAction::Finish => StartupActionView::Finish,
        }
    }
}

/// What the driver reports after carrying out an action.
pub enum StartupEvent {
    /// The action was carried out.
    Done,
    /// The Sedna programs are available in this directory.
    BinariesReady(String),
    /// The temporary directory was created at this path.
    DirCreated(String),
    /// The action failed with this message.
    Failed(String),
    /// The Sedna programs could not be made available.
    BinariesFailed(SednaError),
    /// The program ran and exited, successfully or not, with this output.
    ToolExited { success: bool, stdout: Vec<u8>, stderr: Vec<u8> },
    /// Whether the listener port answered.
    PortReachable(bool),
}

/// The mathematical value of a `StartupEvent`.
pub enum StartupEventView {
    Done,
    BinariesReady(Seq<char>),
    DirCreated(Seq<char>),
    Failed(Seq<char>),
    BinariesFailed(SednaErrorView),
    ToolExited { success: bool, stdout: Seq<u8>, stderr: Seq<u8> },
    PortReachable(bool),
}

impl View for StartupEvent {
    type V = StartupEventView;

    open spec fn view(&self) -> StartupEventView {
        match self {
            StartupEvent::Done => StartupEventView::Done,
            StartupEvent::BinariesReady(d) => StartupEventView::BinariesReady(d@),
            StartupEvent::DirCreated(p) => StartupEventView::DirCreated(p@),
            StartupEvent::Failed(m) => StartupEventView::Failed(m@),
            StartupEvent::BinariesFailed(e) => StartupEventView::BinariesFailed(e@),
            StartupEvent::ToolExited { success, stdout, stderr } => StartupEventView::ToolExited {
                success: *success,
                stdout: stdout@,
                stderr: stderr@,
            },
            StartupEvent::PortReachable(b) => StartupEventView::PortReachable(*b),
        }
    }
}

/// The mathematical value of a startup in progress.
pub struct StartupView {
    /// The listener port.
    pub port: nat,
    /// The current stage.
    pub phase: Phase,
    /// The directory of the Sedna programs, once it is known.
    pub bin_dir: Seq<char>,
    /// The path of the data directory, once it is known.
    pub data_dir: Seq<char>,
    /// The path of the configuration directory, once it is known.
    pub config_dir: Seq<char>,
    /// How many tries of the governor's port went unanswered.
    pub settle_tries: nat,
    /// How many tries of the listener port went unanswered.
    pub failed_probes: nat,
    /// Why startup failed, once it has.
    pub error: Option<SednaErrorView>,
}

/// Whether `phase` comes before the listener port is first tried.
pub open spec fn before_probing(phase: Phase) -> bool {
    !(phase == Phase::Probe || phase == Phase::Backoff || phase == Phase::Ready || phase
        == Phase::Failed)
}

/// Whether `phase` comes before the governor's port is first tried.
pub open spec fn before_settling(phase: Phase) -> bool {
    phase == Phase::Binaries || phase == Phase::DataDir || phase == Phase::ConfigDir || phase
        == Phase::DataSubdir || phase == Phase::ConfigSubdir || phase == Phase::WriteConfig
        || phase == Phase::Governor
}

/// The state every startup keeps to.
pub open spec fn startup_wf(s: StartupView) -> bool {
    &&& s.settle_tries <= SETTLE_ATTEMPTS
    &&& s.phase == Phase::Settle ==> s.settle_tries < SETTLE_ATTEMPTS
    &&& s.phase == Phase::SettleBackoff ==> s.settle_tries >= 1
    &&& before_settling(s.phase) ==> s.settle_tries == 0
    &&& s.failed_probes <= PROBE_ATTEMPTS
    &&& s.phase == Phase::Probe ==> s.failed_probes < PROBE_ATTEMPTS
    &&& before_probing(s.phase) ==> s.failed_probes == 0
    &&& s.phase == Phase::Backoff ==> s.failed_probes >= 1
    &&& (s.phase == Phase::Failed <==> s.error is Some)
}

/// A startup for a server on `port`, before anything is done.
pub open spec fn startup_initial(port: nat) -> StartupView {
    StartupView {
        port,
        phase: Phase::Binaries,
        bin_dir: Seq::empty(),
        data_dir: Seq::empty(),
        config_dir: Seq::empty(),
        settle_tries: 0,
        failed_probes: 0,
        error: None,
    }
}

/// `s` moved to stage `phase`.
pub open spec fn enter(s: StartupView, phase: Phase) -> StartupView {
    StartupView { phase, ..s }
}

/// `s` stopped with `error`.
pub open spec fn fail_with(s: StartupView, error: SednaErrorView) -> StartupView {
    StartupView { phase: Phase::Failed, error: Some(error), ..s }
}

/// The error of a startup program that ran but did not succeed, with its
/// output.
pub open spec fn tool_exit_error(phase: Phase, stdout: Seq<u8>, stderr: Seq<u8>) -> SednaErrorView {
    let report = "\nstdout: "@ + utf8_lossy(stdout) + "\nstderr: "@ + utf8_lossy(stderr);
    match phase {
        Phase::Governor => SednaErrorView::ServerStartupFailed("se_gov failed to start:"@ + report),
        Phase::CreateDatabase => SednaErrorView::DatabaseCreationFailed("se_cdb failed:"@ + report),
        _ => SednaErrorView::DatabaseCreationFailed("se_sm failed to start database:"@ + report),
    }
}

/// The error of a startup program that could not be run.
pub open spec fn tool_spawn_error(phase: Phase, message: Seq<char>) -> SednaErrorView {
    match phase {
        Phase::Governor => SednaErrorView::ServerStartupFailed("Failed to start se_gov: "@ + message),
        Phase::CreateDatabase => SednaErrorView::DatabaseCreationFailed(
            "Failed to run se_cdb: "@ + message,
        ),
        _ => SednaErrorView::DatabaseCreationFailed("Failed to run se_sm: "@ + message),
    }
}

/// The error of a directory or file step that failed with `message`.
pub open spec fn io_step_error(phase: Phase, message: Seq<char>) -> SednaErrorView {
    match phase {
        Phase::DataDir => SednaErrorView::ServerStartupFailed("Failed to create data dir: "@ + message),
        Phase::ConfigDir => SednaErrorView::ServerStartupFailed("Failed to create cfg dir: "@ + message),
        Phase::DataSubdir => SednaErrorView::ServerStartupFailed(
            "Failed to create data/data: "@ + message,
        ),
        Phase::ConfigSubdir => SednaErrorView::ServerStartupFailed(
            "Failed to create data/cfg: "@ + message,
        ),
        _ => SednaErrorView::ServerStartupFailed("Failed to write config: "@ + message),
    }
}

/// The error when the listener port never answered.
pub open spec fn timeout_error() -> SednaErrorView {
    SednaErrorView::ServerStartupFailed("Server did not start listening on port within timeout"@)
}

/// Whether `phase` runs a startup program.
pub open spec fn is_tool_phase(phase: Phase) -> bool {
    phase == Phase::Governor || phase == Phase::CreateDatabase || phase == Phase::StartDatabase
}

/// The stage after `phase` when it succeeds.
pub open spec fn successor(phase: Phase) -> Phase {
    match phase {
        Phase::Binaries => Phase::DataDir,
        Phase::DataDir => Phase::ConfigDir,
        Phase::ConfigDir => Phase::DataSubdir,
        Phase::DataSubdir => Phase::ConfigSubdir,
        Phase::ConfigSubdir => Phase::WriteConfig,
        Phase::WriteConfig => Phase::Governor,
        Phase::Governor => Phase::Settle,
        Phase::Settle => Phase::CreateDatabase,
        Phase::SettleBackoff => Phase::CreateDatabase,
        Phase::CreateDatabase => Phase::StartDatabase,
        Phase::StartDatabase => Phase::Probe,
        Phase::Probe => Phase::Ready,
        Phase::Backoff => Phase::Probe,
        Phase::Ready => Phase::Ready,
        Phase::Failed => Phase::Failed,
    }
}

/// The startup after the driver reports `e` in state `s`. A report that does
/// not answer the current stage's action changes nothing.
pub open spec fn startup_next(s: StartupView, e: StartupEventView) -> StartupView {
    match s.phase {
        Phase::Binaries => match e {
            StartupEventView::BinariesReady(dir) => StartupView {
                phase: Phase::DataDir,
                bin_dir: dir,
                ..s
            },
            StartupEventView::BinariesFailed(err) => fail_with(s, err),
            _ => s,
        },
        Phase::DataDir => match e {
            StartupEventView::DirCreated(path) => StartupView {
                phase: Phase::ConfigDir,
                data_dir: path,
                ..s
            },
            StartupEventView::Failed(m) => fail_with(s, io_step_error(s.phase, m)),
            _ => s,
        },
        Phase::ConfigDir => match e {
            StartupEventView::DirCreated(path) => StartupView {
                phase: Phase::DataSubdir,
                config_dir: path,
                ..s
            },
            StartupEventView::Failed(m) => fail_with(s, io_step_error(s.phase, m)),
            _ => s,
        },
        Phase::DataSubdir | Phase::ConfigSubdir | Phase::WriteConfig => match e {
            StartupEventView::Done => enter(s, successor(s.phase)),
            StartupEventView::Failed(m) => fail_with(s, io_step_error(s.phase, m)),
            _ => s,
        },
        Phase::Governor | Phase::CreateDatabase | Phase::StartDatabase => match e {
            StartupEventView::ToolExited { success, stdout, stderr } => if success {
                enter(s, successor(s.phase))
            } else {
                fail_with(s, tool_exit_error(s.phase, stdout, stderr))
            },
            StartupEventView::Failed(m) => fail_with(s, tool_spawn_error(s.phase, m)),
            _ => s,
        },
        Phase::Settle => match e {
            StartupEventView::PortReachable(answered) => if answered {
                enter(s, Phase::CreateDatabase)
            } else {
                StartupView { phase: Phase::SettleBackoff, settle_tries: s.settle_tries + 1, ..s }
            },
            _ => s,
        },
        Phase::SettleBackoff => match e {
            StartupEventView::Done => if s.settle_tries >= SETTLE_ATTEMPTS {
                enter(s, Phase::CreateDatabase)
            } else {
                enter(s, Phase::Settle)
            },
            _ => s,
        },
        Phase::Probe => match e {
            StartupEventView::PortReachable(answered) => if answered {
                enter(s, Phase::Ready)
            } else {
                StartupView { phase: Phase::Backoff, failed_probes: s.failed_probes + 1, ..s }
            },
            _ => s,
        },
        Phase::Backoff => match e {
            StartupEventView::Done => if s.failed_probes >= PROBE_ATTEMPTS {
                fail_with(s, timeout_error())
            } else {
                enter(s, Phase::Probe)
            },
            _ => s,
        },
        Phase::Ready | Phase::Failed => s,
    }
}

/// The action that the startup in state `s` asks for.
pub open spec fn startup_action(s: StartupView) -> StartupActionView {
    match s.phase {
        Phase::Binaries => StartupActionView::PrepareBinaries,
        Phase::DataDir => StartupActionView::CreateScratchDir(ScratchDir::Data),
        Phase::ConfigDir => StartupActionView::CreateScratchDir(ScratchDir::Config),
        Phase::DataSubdir => StartupActionView::CreateSubdir(Subdir::Data),
        Phase::ConfigSubdir => StartupActionView::CreateSubdir(Subdir::Cfg),
        Phase::WriteConfig => StartupActionView::WriteConfig(sedna_config(s.data_dir, s.port)),
        Phase::Governor => StartupActionView::RunTool(Tool::Governor),
        Phase::Settle => StartupActionView::ProbePort(probe_address(s.port)),
        Phase::SettleBackoff => StartupActionView::Sleep(SETTLE_INTERVAL_MS as nat),
        Phase::CreateDatabase => StartupActionView::RunTool(Tool::CreateDatabase),
        Phase::StartDatabase => StartupActionView::RunTool(Tool::StartDatabase),
        Phase::Probe => StartupActionView::ProbePort(probe_address(s.port)),
        Phase::Backoff => StartupActionView::Sleep(PROBE_INTERVAL_MS as nat),
        Phase::Ready | Phase::Failed => StartupActionView::Finish,
    }
}

/// A server startup in progress.
pub struct Startup {
    port: u16,
    phase: Phase,
    bin_dir: String,
    data_dir: String,
    config_dir: String,
    settle_tries: u32,
    failed_probes: u32,
    error: Option<SednaError>,
}

impl View for Startup {
    type V = StartupView;

    closed spec fn view(&self) -> StartupView {
        StartupView {
            port: self.port as nat,
            phase: self.phase,
            bin_dir: self.bin_dir@,
            data_dir: self.data_dir@,
            config_dir: self.config_dir@,
            settle_tries: self.settle_tries as nat,
            failed_probes: self.failed_probes as nat,
            error: match self.error {
                Some(e) => Some(e@),
                None => None,
            },
        }
    }
}

fn prefixed(prefix: &str, message: &str) -> (s: String)
    ensures
        s@ == prefix@ + message@,
{
    let mut s = String::from_str(prefix);
    s.append(message);
    s
}

fn exit_error(phase: Phase, stdout: &[u8], stderr: &[u8]) -> (e: SednaError)
    requires
        is_tool_phase(phase),
    ensures
        e@ == tool_exit_error(phase, stdout@, stderr@),
{
    let out = decode_lossy(stdout);
    let err = decode_lossy(stderr);
    let mut text = match phase {
        Phase::Governor => String::from_str("se_gov failed to start:"),
        Phase::CreateDatabase => String::from_str("se_cdb failed:"),
        _ => String::from_str("se_sm failed to start database:"),
    };
    let ghost heading = text@;
    text.append("\nstdout: ");
    text.append(out.as_str());
    text.append("\nstderr: ");
    text.append(err.as_str());
    assert(text@ =~= heading + ("\nstdout: "@ + utf8_lossy(stdout@) + "\nstderr: "@ + utf8_lossy(
        stderr@,
    )));
    match phase {
        Phase::Governor => SednaError::ServerStartupFailed(text),
        _ => SednaError::DatabaseCreationFailed(text),
    }
}

fn spawn_error(phase: Phase, message: &str) -> (e: SednaError)
    requires
        is_tool_phase(phase),
    ensures
        e@ == tool_spawn_error(phase, message@),
{
    match phase {
        Phase::Governor => SednaError::ServerStartupFailed(prefixed("Failed to start se_gov: ", message)),
        Phase::CreateDatabase => SednaError::DatabaseCreationFailed(
            prefixed("Failed to run se_cdb: ", message),
        ),
        _ => SednaError::DatabaseCreationFailed(prefixed("Failed to run se_sm: ", message)),
    }
}

fn io_error(phase: Phase, message: &str) -> (e: SednaError)
    ensures
        e@ == io_step_error(phase, message@),
{
    let text = match phase {
        Phase::DataDir => prefixed("Failed to create data dir: ", message),
        Phase::ConfigDir => prefixed("Failed to create cfg dir: ", message),
        Phase::DataSubdir => prefixed("Failed to create data/data: ", message),
        Phase::ConfigSubdir => prefixed("Failed to create data/cfg: ", message),
        _ => prefixed("Failed to write config: ", message),
    };
    SednaError::ServerStartupFailed(text)
}

impl Startup {
    /// The state every startup keeps to.
    pub open spec fn wf(&self) -> bool {
        startup_wf(self@)
    }

    /// Begins starting a server that will listen on `port`.
    pub fn new(port: u16) -> (s: Startup)
        ensures
            s@ == startup_initial(port as nat),
            s.wf(),
    {
        Startup {
            port,
            phase: Phase::Binaries,
            bin_dir: String::new(),
            data_dir: String::new(),
            config_dir: String::new(),
            settle_tries: 0,
            failed_probes: 0,
            error: None,
        }
    }

    /// The listener port of the server being started.
    pub fn port(&self) -> (p: u16)
        ensures
            p == self@.port,
    {
        self.port
    }

    /// The current stage.
    pub fn phase(&self) -> (p: Phase)
        ensures
            p == self@.phase,
    {
        self.phase
    }

    /// Whether startup is over, one way or the other.
    pub fn is_finished(&self) -> (b: bool)
        ensures
            b == (self@.phase == Phase::Ready || self@.phase == Phase::Failed),
    {
        match self.phase {
            Phase::Ready | Phase::Failed => true,
            _ => false,
        }
    }

    /// Where the Sedna programs of this server run and what they are told:
    /// in the programs' directory, with the data directory as the install
    /// root and the configuration file of the configuration directory.
    pub fn tool_environment(&self) -> (env: ToolEnvironment)
        ensures
            env.working_dir@ == self@.bin_dir,
            env.variables@.len() == 2,
            env.variables@[0].0@ == INSTALL_ENV_VAR@,
            env.variables@[0].1@ == self@.data_dir,
            env.variables@[1].0@ == CONFIG_ENV_VAR@,
            env.variables@[1].1@ == config_file_path(self@.config_dir),
    {
        let mut variables: Vec<(String, String)> = Vec::new();
        variables.push((String::from_str(INSTALL_ENV_VAR), self.data_dir.clone()));
        variables.push((String::from_str(CONFIG_ENV_VAR), config_file_in(self.config_dir.as_str())));
        ToolEnvironment { working_dir: self.bin_dir.clone(), variables }
    }

    /// The action the driver is to carry out next.
    pub fn next_action(&self) -> (a: StartupAction)
        requires
            self.wf(),
            self@.phase == Phase::WriteConfig ==> self@.port <= MAX_LISTENER_PORT,
        ensures
            a@ == startup_action(self@),
    {
        match self.phase {
            Phase::Binaries => StartupAction::PrepareBinaries,
            Phase::DataDir => StartupAction::CreateScratchDir(ScratchDir::Data),
            Phase::ConfigDir => StartupAction::CreateScratchDir(ScratchDir::Config),
            Phase::DataSubdir => StartupAction::CreateSubdir(Subdir::Data),
            Phase::ConfigSubdir => StartupAction::CreateSubdir(Subdir::Cfg),
            Phase::WriteConfig => {
                let text = match generate_sedna_config(self.data_dir.as_str(), self.port) {
                    Ok(text) => text,
                    Err(_) => String::new(),
                };
                StartupAction::WriteConfig(text)
            },
            Phase::Governor => StartupAction::RunTool(Tool::Governor),
            Phase::Settle => StartupAction::ProbePort(self.probe_address()),
            Phase::SettleBackoff => StartupAction::Sleep(SETTLE_INTERVAL_MS),
            Phase::CreateDatabase => StartupAction::RunTool(Tool::CreateDatabase),
            Phase::StartDatabase => StartupAction::RunTool(Tool::StartDatabase),
            Phase::Probe => StartupAction::ProbePort(self.probe_address()),
            Phase::Backoff => StartupAction::Sleep(PROBE_INTERVAL_MS),
            Phase::Ready | Phase::Failed => StartupAction::Finish,
        }
    }

    fn probe_address(&self) -> (address: String)
        ensures
            address@ == probe_address(self@.port),
    {
        let mut address = String::from_str(SERVER_HOST);
        address.append(":");
        push_decimal(&mut address, self.port as u64);
        proof {
            assert(address@ =~= probe_address(self@.port));
        }
        address
    }

    fn fail(&mut self, error: SednaError)
        ensures
            final(self)@ == fail_with(old(self)@, error@),
    {
        self.phase = Phase::Failed;
        self.error = Some(error);
    }

    fn enter(&mut self, phase: Phase)
        ensures
            final(self)@ == enter(old(self)@, phase),
    {
        self.phase = phase;
    }

    /// Takes in what the driver reports after the last action.
    pub fn advance(&mut self, event: StartupEvent)
        requires
            old(self).wf(),
        ensures
            final(self)@ == startup_next(old(self)@, event@),
            final(self).wf(),
            final(self)@.port == old(self)@.port,
            is_settling(old(self)@.phase) ==> final(self)@.phase != Phase::Failed,
            old(self)@.phase == Phase::Settle && event@ == StartupEventView::PortReachable(false)
                ==> final(self)@.phase == Phase::SettleBackoff,
    {
        proof {
            lemma_startup_next_wf(self@, event@);
            if is_settling(self@.phase) {
                lemma_settling_never_fails(self@, event@);
            }
            if self@.phase == Phase::Settle {
                lemma_unanswered_settle_try_pauses(self@);
            }
        }
        match self.phase {
            Phase::Binaries => match event {
                StartupEvent::BinariesReady(dir) => {
                    self.bin_dir = dir;
                    self.phase = Phase::DataDir;
                },
                StartupEvent::BinariesFailed(err) => self.fail(err),
                _ => {},
            },
            Phase::DataDir => match event {
                StartupEvent::DirCreated(path) => {
                    self.data_dir = path;
                    self.phase = Phase::ConfigDir;
                },
                StartupEvent::Failed(m) => {
                    let err = io_error(self.phase, m.as_str());
                    self.fail(err);
                },
                _ => {},
            },
            Phase::ConfigDir => match event {
                StartupEvent::DirCreated(path) => {
                    self.config_dir = path;
                    self.phase = Phase::DataSubdir;
                },
                StartupEvent::Failed(m) => {
                    let err = io_error(self.phase, m.as_str());
                    self.fail(err);
                },
                _ => {},
            },
            Phase::DataSubdir | Phase::ConfigSubdir | Phase::WriteConfig => match event {
                StartupEvent::Done => {
                    let next = match self.phase {
                        Phase::DataSubdir => Phase::ConfigSubdir,
                        Phase::ConfigSubdir => Phase::WriteConfig,
                        _ => Phase::Governor,
                    };
                    self.enter(next);
                },
                StartupEvent::Failed(m) => {
                    let err = io_error(self.phase, m.as_str());
                    self.fail(err);
                },
                _ => {},
            },
            Phase::Governor | Phase::CreateDatabase | Phase::StartDatabase => match event {
                StartupEvent::ToolExited { success, stdout, stderr } => {
                    if success {
                        let next = match self.phase {
                            Phase::Governor => Phase::Settle,
                            Phase::CreateDatabase => Phase::StartDatabase,
                            _ => Phase::Probe,
                        };
                        self.enter(next);
                    } else {
                        let err = exit_error(self.phase, stdout.as_slice(), stderr.as_slice());
                        self.fail(err);
                    }
                },
                StartupEvent::Failed(m) => {
                    let err = spawn_error(self.phase, m.as_str());
                    self.fail(err);
                },
                _ => {},
            },
            Phase::Settle => match event {
                StartupEvent::PortReachable(answered) => {
                    if answered {
                        self.enter(Phase::CreateDatabase);
                    } else {
                        self.settle_tries = self.settle_tries + 1;
                        self.phase = Phase::SettleBackoff;
                    }
                },
                _ => {},
            },
            Phase::SettleBackoff => match event {
                StartupEvent::Done => {
                    if self.settle_tries >= SETTLE_ATTEMPTS {
                        self.enter(Phase::CreateDatabase);
                    } else {
                        self.enter(Phase::Settle);
                    }
                },
                _ => {},
            },
            Phase::Probe => match event {
                StartupEvent::PortReachable(answered) => {
                    if answered {
                        self.enter(Phase::Ready);
                    } else {
                        self.failed_probes = self.failed_probes + 1;
                        self.phase = Phase::Backoff;
                    }
                },
                _ => {},
            },
            Phase::Backoff => match event {
                StartupEvent::Done => {
                    if self.failed_probes >= PROBE_ATTEMPTS {
                        let err = SednaError::ServerStartupFailed(
                            String::from_str("Server did not start listening on port within timeout"),
                        );
                        self.fail(err);
                    } else {
                        self.enter(Phase::Probe);
                    }
                },
                _ => {},
            },
            Phase::Ready | Phase::Failed => {},
        }
    }

    /// The outcome of a finished startup: `Ok` once the server is up, the
    /// error it failed with otherwise.
    pub fn finish(self) -> (r: Result<(), SednaError>)
        requires
            self.wf(),
            self@.phase == Phase::Ready || self@.phase == Phase::Failed,
        ensures
            self@.phase == Phase::Ready ==> r is Ok,
            self@.phase == Phase::Failed ==> (r matches Err(e) && Some(e@) == self@.error),
    {
        match self.error {
            Some(e) => Err(e),
            None => Ok(()),
        }
    }
}

/// Every step keeps the startup's state well formed.
pub proof fn lemma_startup_next_wf(s: StartupView, e: StartupEventView)
    requires
        startup_wf(s),
    ensures
        startup_wf(startup_next(s, e)),
{
}

/// The position of a stage in the startup order; the tries of the listener
/// port and the pauses between them share one position.
pub open spec fn stage_rank(phase: Phase) -> nat {
    match phase {
        Phase::Binaries => 0,
        Phase::DataDir => 1,
        Phase::ConfigDir => 2,
        Phase::DataSubdir => 3,
        Phase::ConfigSubdir => 4,
        Phase::WriteConfig => 5,
        Phase::Governor => 6,
        Phase::Settle => 7,
        Phase::SettleBackoff => 7,
        Phase::CreateDatabase => 8,
        Phase::StartDatabase => 9,
        Phase::Probe => 10,
        Phase::Backoff => 10,
        Phase::Ready => 11,
        Phase::Failed => 12,
    }
}

/// Whether `e` is the report with which `phase` completes successfully.
pub open spec fn completes(phase: Phase, e: StartupEventView) -> bool {
    match phase {
        Phase::Binaries => e is BinariesReady,
        Phase::DataDir | Phase::ConfigDir => e is DirCreated,
        Phase::Governor | Phase::CreateDatabase | Phase::StartDatabase => e matches StartupEventView::ToolExited {
            success,
            ..
        } && success,
        Phase::Settle | Phase::Probe => e == StartupEventView::PortReachable(true),
        Phase::Ready | Phase::Failed => false,
        _ => e is Done,
    }
}

/// The startup after the driver has reported `events`, one after another.
pub open spec fn startup_run(s: StartupView, events: Seq<StartupEventView>) -> StartupView
    decreases events.len(),
{
    if events.len() == 0 {
        s
    } else {
        startup_run(startup_next(s, events[0]), events.drop_first())
    }
}

/// How many answers to tries of the listener port the startup takes in
/// while the driver reports `events`.
pub open spec fn probes_tried(s: StartupView, events: Seq<StartupEventView>) -> nat
    decreases events.len(),
{
    if events.len() == 0 {
        0
    } else {
        (if s.phase == Phase::Probe && events[0] is PortReachable {
            1nat
        } else {
            0nat
        }) + probes_tried(startup_next(s, events[0]), events.drop_first())
    }
}

/// A finished startup stays as it is, whatever is reported afterwards.
pub proof fn lemma_finished_startup_stays(s: StartupView, e: StartupEventView)
    requires
        s.phase == Phase::Ready || s.phase == Phase::Failed,
    ensures
        startup_next(s, e) == s,
{
}

/// Startup never goes back to an earlier stage and never skips one: each
/// report either keeps the stage, moves to the next one through that
/// stage's successful completion, or ends the startup with a failure.
pub proof fn lemma_stages_in_order(s: StartupView, e: StartupEventView)
    requires
        startup_wf(s),
        startup_next(s, e).phase != Phase::Failed,
    ensures
        stage_rank(s.phase) <= stage_rank(startup_next(s, e).phase) <= stage_rank(s.phase) + 1,
        stage_rank(startup_next(s, e).phase) == stage_rank(s.phase) + 1 ==> s.phase != Phase::Backoff
            && (s.phase == Phase::SettleBackoff || completes(s.phase, e)) && startup_next(s, e).phase
            == successor(s.phase),
{
}

/// Whatever is reported, the startup's state stays well formed.
pub proof fn lemma_run_wf(s: StartupView, events: Seq<StartupEventView>)
    requires
        startup_wf(s),
    ensures
        startup_wf(startup_run(s, events)),
    decreases events.len(),
{
    if events.len() > 0 {
        lemma_startup_next_wf(s, events[0]);
        lemma_run_wf(startup_next(s, events[0]), events.drop_first());
    }
}

proof fn lemma_finished_run_stays(s: StartupView, events: Seq<StartupEventView>)
    requires
        s.phase == Phase::Ready || s.phase == Phase::Failed,
    ensures
        startup_run(s, events) == s,
        probes_tried(s, events) == 0,
    decreases events.len(),
{
    if events.len() > 0 {
        lemma_finished_run_stays(startup_next(s, events[0]), events.drop_first());
    }
}

/// The listener port is tried at most `PROBE_ATTEMPTS` times in all: a
/// startup that has seen `k` unanswered tries takes in at most
/// `PROBE_ATTEMPTS - k` more answers, whatever the driver reports.
pub proof fn lemma_probe_budget(s: StartupView, events: Seq<StartupEventView>)
    requires
        startup_wf(s),
    ensures
        probes_tried(s, events) + s.failed_probes <= PROBE_ATTEMPTS,
    decreases events.len(),
{
    if events.len() > 0 {
        let e = events[0];
        let s1 = startup_next(s, e);
        lemma_startup_next_wf(s, e);
        lemma_probe_budget(s1, events.drop_first());
        if s1.phase == Phase::Ready {
            lemma_finished_run_stays(s1, events.drop_first());
        }
    }
}

proof fn lemma_run_take_step(s: StartupView, events: Seq<StartupEventView>, j: int)
    requires
        0 <= j < events.len(),
    ensures
        startup_run(s, events.take(j + 1)) == startup_run(
            startup_next(s, events[0]),
            events.drop_first().take(j),
        ),
{
    let t = events.take(j + 1);
    assert(t[0] == events[0]);
    assert(t.drop_first() =~= events.drop_first().take(j));
}

/// A startup that becomes ready has gone through `stage` and completed it:
/// at some report the startup was at `stage` and the report was that stage's
/// success. (The governor's settling is the one stage that may also end by
/// running out of tries, as the fixed wait it replaces did.) In particular the governor, the database creation and the
/// database start all exited successfully, and the listener port answered.
pub proof fn lemma_ready_passes_stage(s: StartupView, events: Seq<StartupEventView>, stage: Phase)
    requires
        startup_wf(s),
        stage_rank(stage) <= 10,
        stage != Phase::Backoff,
        stage != Phase::Settle,
        stage != Phase::SettleBackoff,
        s.phase != Phase::Failed,
        stage_rank(s.phase) <= stage_rank(stage),
        startup_run(s, events).phase == Phase::Ready,
    ensures
        exists|i: int|
            0 <= i < events.len() && (#[trigger] startup_run(s, events.take(i))).phase == stage
                && completes(stage, events[i]),
    decreases events.len(),
{
    if events.len() == 0 {
        assert(false);
    } else {
        let e = events[0];
        let s1 = startup_next(s, e);
        let rest = events.drop_first();
        lemma_startup_next_wf(s, e);
        if s1.phase == Phase::Failed {
            lemma_finished_run_stays(s1, rest);
            assert(false);
        }
        lemma_stages_in_order(s, e);
        if stage_rank(s1.phase) == stage_rank(stage) + 1 {
            assert(s.phase == stage);
            assert(events.take(0) =~= Seq::<StartupEventView>::empty());
            assert(startup_run(s, events.take(0)) == s);
        } else {
            lemma_ready_passes_stage(s1, rest, stage);
            let j: int = choose|j: int|
                0 <= j < rest.len() && (#[trigger] startup_run(s1, rest.take(j))).phase == stage
                    && completes(stage, rest[j]);
            lemma_run_take_step(s, events, j);
            assert(events[j + 1] == rest[j]);
            assert(startup_run(s, events.take(j + 1)).phase == stage);
        }
    }
}

/// A server reported up has had every startup stage completed, in
/// particular each of its programs exited successfully and its listener
/// port answered.
pub proof fn lemma_ready_requires_every_stage(port: nat, events: Seq<StartupEventView>, stage: Phase)
    requires
        stage_rank(stage) <= 10,
        stage != Phase::Backoff,
        stage != Phase::Settle,
        stage != Phase::SettleBackoff,
        startup_run(startup_initial(port), events).phase == Phase::Ready,
    ensures
        exists|i: int|
            0 <= i < events.len() && (#[trigger] startup_run(startup_initial(port), events.take(i))).phase
                == stage && completes(stage, events[i]),
{
    lemma_ready_passes_stage(startup_initial(port), events, stage);
}

/// A failure to make the Sedna programs available ends the startup with
/// that very error, on any port, before any directory, file, program or
/// port is touched: nothing is asked of the driver afterwards.
pub proof fn lemma_binaries_failure_passed_on(
    port: nat,
    error: SednaErrorView,
    later: Seq<StartupEventView>,
)
    ensures
        ({
            let end = startup_run(
                startup_initial(port),
                seq![StartupEventView::BinariesFailed(error)] + later,
            );
            &&& end.phase == Phase::Failed
            &&& end.error == Some(error)
            &&& startup_action(end) == StartupActionView::Finish
        }),
{
    let events = seq![StartupEventView::BinariesFailed(error)] + later;
    let s1 = startup_next(startup_initial(port), events[0]);
    assert(events.drop_first() =~= later);
    lemma_finished_run_stays(s1, later);
}

/// The startup pauses only right after a try of a port went unanswered:
/// whenever a report leads from a state that asks for no pause to one that
/// asks for a pause, that report was an unanswered try.
pub proof fn lemma_pause_only_after_unanswered_try(s: StartupView, e: StartupEventView)
    requires
        startup_wf(s),
        !(startup_action(s) is Sleep),
        startup_action(startup_next(s, e)) is Sleep,
    ensures
        e == StartupEventView::PortReachable(false),
{
}

/// A startup in which no try of a port goes unanswered never asks for a
/// pause: once its programs succeed and its ports answer at once, it runs
/// straight through to ready without waiting.
pub proof fn lemma_no_pause_without_unanswered_try(s: StartupView, events: Seq<StartupEventView>, i: int)
    requires
        startup_wf(s),
        !(startup_action(s) is Sleep),
        forall|k: int| 0 <= k < events.len() ==> events[k] != StartupEventView::PortReachable(false),
        0 <= i <= events.len(),
    ensures
        !(startup_action(startup_run(s, events.take(i))) is Sleep),
    decreases i,
{
    if i > 0 {
        let e = events[0];
        let s1 = startup_next(s, e);
        lemma_startup_next_wf(s, e);
        if startup_action(s1) is Sleep {
            lemma_pause_only_after_unanswered_try(s, e);
            assert(false);
        }
        let rest = events.drop_first();
        assert forall|k: int| 0 <= k < rest.len() implies rest[k] != StartupEventView::PortReachable(
            false,
        ) by {
            assert(rest[k] == events[k + 1]);
        }
        lemma_no_pause_without_unanswered_try(s1, rest, i - 1);
        lemma_run_take_step(s, events, i - 1);
    } else {
        assert(events.take(0) =~= Seq::<StartupEventView>::empty());
    }
}

/// Whether `phase` is part of waiting for the governor to settle.
pub open spec fn is_settling(phase: Phase) -> bool {
    phase == Phase::Settle || phase == Phase::SettleBackoff
}

/// Whether `e` answers what the settling startup `s` asked for: a try of
/// the port is answered by whether it answered, a pause by its end.
pub open spec fn answers_settling(s: StartupView, e: StartupEventView) -> bool {
    ||| s.phase == Phase::Settle && e is PortReachable
    ||| s.phase == Phase::SettleBackoff && e is Done
}

/// How many answered actions settling can take at most from `s`.
pub open spec fn settle_budget(s: StartupView) -> nat {
    if s.phase == Phase::Settle {
        2 * (SETTLE_ATTEMPTS - s.settle_tries) as nat
    } else {
        2 * (SETTLE_ATTEMPTS - s.settle_tries) as nat + 1
    }
}

/// Waiting for the governor never fails the startup, on any port: whatever
/// is reported, the startup goes on settling or moves on to creating the
/// database.
pub proof fn lemma_settling_never_fails(s: StartupView, e: StartupEventView)
    requires
        startup_wf(s),
        is_settling(s.phase),
    ensures
        startup_next(s, e).phase != Phase::Failed,
        is_settling(startup_next(s, e).phase) || startup_next(s, e).phase == Phase::CreateDatabase,
        startup_next(s, e).port == s.port,
{
}

/// An unanswered try of the port while the governor settles, on any port,
/// leads to a pause of `SETTLE_INTERVAL_MS` and counts one more try.
pub proof fn lemma_unanswered_settle_try_pauses(s: StartupView)
    requires
        startup_wf(s),
        s.phase == Phase::Settle,
    ensures
        startup_next(s, StartupEventView::PortReachable(false)).phase == Phase::SettleBackoff,
        startup_next(s, StartupEventView::PortReachable(false)).settle_tries == s.settle_tries + 1,
        startup_action(startup_next(s, StartupEventView::PortReachable(false)))
            == StartupActionView::Sleep(SETTLE_INTERVAL_MS as nat),
        startup_next(s, StartupEventView::PortReachable(true)).phase == Phase::CreateDatabase,
{
}

/// After a pause the port is tried again, unless `SETTLE_ATTEMPTS` tries
/// went unanswered: then the startup moves on to creating the database.
pub proof fn lemma_pause_then_retry_or_move_on(s: StartupView)
    requires
        startup_wf(s),
        s.phase == Phase::SettleBackoff,
    ensures
        s.settle_tries < SETTLE_ATTEMPTS ==> startup_next(s, StartupEventView::Done).phase
            == Phase::Settle,
        s.settle_tries >= SETTLE_ATTEMPTS ==> startup_next(s, StartupEventView::Done).phase
            == Phase::CreateDatabase,
{
}

/// Whatever the governor's port answers, settling ends: a startup whose
/// settling actions are all answered reaches the database creation within
/// `settle_budget` reports, at most twice `SETTLE_ATTEMPTS` in all, as the
/// fixed wait it replaces always went on to create the database.
pub proof fn lemma_settling_reaches_create_database(s: StartupView, events: Seq<StartupEventView>)
    requires
        startup_wf(s),
        is_settling(s.phase),
        events.len() >= settle_budget(s),
        forall|i: int|
            0 <= i < events.len() && is_settling((#[trigger] startup_run(s, events.take(i))).phase)
                ==> answers_settling(startup_run(s, events.take(i)), events[i]),
    ensures
        exists|i: int|
            0 <= i <= settle_budget(s) && (#[trigger] startup_run(s, events.take(i))).phase
                == Phase::CreateDatabase,
    decreases settle_budget(s),
{
    assert(events.take(0) =~= Seq::<StartupEventView>::empty());
    assert(startup_run(s, events.take(0)) == s);
    let e = events[0];
    assert(answers_settling(s, e));
    let s1 = startup_next(s, e);
    let rest = events.drop_first();
    lemma_startup_next_wf(s, e);
    lemma_run_take_step(s, events, 0);
    assert(rest.take(0) =~= Seq::<StartupEventView>::empty());
    assert(startup_run(s, events.take(1)) == s1);
    if s1.phase != Phase::CreateDatabase {
        assert(is_settling(s1.phase));
        assert(settle_budget(s1) + 1 == settle_budget(s));
        assert forall|i: int|
            0 <= i < rest.len() && is_settling((#[trigger] startup_run(s1, rest.take(i))).phase)
                implies answers_settling(startup_run(s1, rest.take(i)), rest[i]) by {
            lemma_run_take_step(s, events, i);
            assert(rest[i] == events[i + 1]);
        }
        lemma_settling_reaches_create_database(s1, rest);
        let j: int = choose|j: int|
            0 <= j <= settle_budget(s1) && (#[trigger] startup_run(s1, rest.take(j))).phase
                == Phase::CreateDatabase;
        lemma_run_take_step(s, events, j);
        assert(startup_run(s, events.take(j + 1)).phase == Phase::CreateDatabase);
    }
}

} // verus!
