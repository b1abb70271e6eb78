use nodevia_agent::cli::{Cli, Command, LogLevel, RunArgs};

fn args() -> RunArgs {
    RunArgs {
        relay_url: None,
        device_id: Some("pi-001".to_string()),
        log_level: LogLevel::Debug,
        token: None,
        heartbeat_interval: None,
        config: None,
    }
}

#[test]
fn log_level_names() {
    assert_eq!(LogLevel::Error.as_str(), "error");
    assert_eq!(LogLevel::Warn.as_str(), "warn");
    assert_eq!(LogLevel::Info.as_str(), "info");
    assert_eq!(LogLevel::Debug.as_str(), "debug");
}

#[test]
fn every_subcommand_carries_its_args() {
    let a = args();
    for cli in [
        Cli { command: Command::Run(a.clone()) },
        Cli { command: Command::Config(a.clone()) },
        Cli { command: Command::Status(a.clone()) },
    ] {
        assert_eq!(cli.command.args(), &a);
    }
}
