//! Command-line model: the subcommands and the flags they share.

use vstd::prelude::*;

verus! {

/// Log verbosity level.
#[derive(Clone, Copy, Debug, PartialEq, Eq, Structural)]
pub enum LogLevel {
    Error,
    Warn,
    Info,
    Debug,
}

impl LogLevel {
    /// The lower-case name of the level, as a tracing filter understands it.
    pub open spec fn name(self) -> Seq<char> {
        match self {
            LogLevel::Error => "error"@,
            LogLevel::Warn => "warn"@,
            LogLevel::Info => "info"@,
            LogLevel::Debug => "debug"@,
        }
    }

    pub fn as_str(&self) -> (s: &'static str)
        ensures
            s@ == self.name(),
    {
        match self {
            LogLevel::Error => "error",
            LogLevel::Warn => "warn",
            LogLevel::Info => "info",
            LogLevel::Debug => "debug",
        }
    }
}

/// Flags shared by all subcommands. A value the user did not give (neither as
/// a flag nor through its environment variable) is `None`.
#[derive(Clone, Debug, PartialEq, Eq)]
pub struct RunArgs {
    /// WebSocket relay URL (`--relay-url`, `RELAY_URL`).
    pub relay_url: Option<String>,
    /// Device identifier (`--device-id`, `DEVICE_ID`).
    pub device_id: Option<String>,
    /// Log verbosity (`--log-level`, default `info`).
    pub log_level: LogLevel,
    /// Relay authentication token (`--token`, `DEVICE_TOKEN`).
    pub token: Option<String>,
    /// Heartbeat ping interval in seconds (`--heartbeat-interval`, `HEARTBEAT_INTERVAL`).
    pub heartbeat_interval: Option<u64>,
    /// Path to the TOML config file (`--config`), as the raw bytes of the
    /// path; it need not be UTF-8.
    pub config: Option<Vec<u8>>,
}

/// The subcommands of the agent.
#[derive(Clone, Debug, PartialEq, Eq)]
pub enum Command {
    /// Start the agent and connect to the relay server.
    Run(RunArgs),
    /// Print the resolved configuration without starting the agent.
    Config(RunArgs),
    /// Check whether the relay is reachable.
    Status(RunArgs),
}

impl Command {
    /// The flags of whichever subcommand was chosen.
    pub fn args(&self) -> (a: &RunArgs)
        ensures
            a == (match self {
                Command::Run(x) => x,
                Command::Config(x) => x,
                Command::Status(x) => x,
            }),
    {
        match self {
            Command::Run(a) => a,
            Command::Config(a) => a,
            Command::Status(a) => a,
        }
    }
}

/// The parsed command line.
#[derive(Clone, Debug, PartialEq, Eq)]
pub struct Cli {
    pub command: Command,
}

} // verus!
