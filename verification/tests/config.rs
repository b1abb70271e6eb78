use nodevia_agent::cli::{LogLevel, RunArgs};
use nodevia_agent::config::{
    choose_config_path, default_config_path, join_path, resolve_hostname, AgentConfig, ConfigFile,
};

fn no_flags() -> RunArgs {
    RunArgs {
        relay_url: None,
        device_id: None,
        log_level: LogLevel::Info,
        token: None,
        heartbeat_interval: None,
        config: None,
    }
}

fn s(x: &str) -> String {
    x.to_string()
}

#[test]
fn defaults_apply_when_nothing_is_set() {
    let c = AgentConfig::from_args(&no_flags(), s("raspberrypi"), None, ConfigFile::default());
    assert_eq!(c.relay_url, "ws://localhost:8080");
    assert_eq!(c.device_id, "raspberrypi");
    assert_eq!(c.hostname, "raspberrypi");
    assert_eq!(c.token, None);
    assert_eq!(c.heartbeat_interval, 30);
    assert_eq!(c.log_level, "info");
    assert_eq!(c.config_path, b"/root/.config/nodevia/agent.toml".to_vec());
}

#[test]
fn config_file_beats_defaults() {
    let file = ConfigFile {
        relay_url: Some(s("wss://relay.yourdomain.com")),
        device_id: Some(s("pi-living-room")),
        token: Some(s("your-secret-token")),
        heartbeat_interval: Some(15),
    };
    let c = AgentConfig::from_args(&no_flags(), s("host"), Some(s("/home/pi")), file);
    assert_eq!(c.relay_url, "wss://relay.yourdomain.com");
    assert_eq!(c.device_id, "pi-living-room");
    assert_eq!(c.token, Some(s("your-secret-token")));
    assert_eq!(c.heartbeat_interval, 15);
    assert_eq!(c.config_path, b"/home/pi/.config/nodevia/agent.toml".to_vec());
}

#[test]
fn flags_beat_config_file() {
    let file = ConfigFile {
        relay_url: Some(s("wss://relay.yourdomain.com")),
        device_id: Some(s("pi-living-room")),
        token: Some(s("file-token")),
        heartbeat_interval: Some(15),
    };
    let args = RunArgs {
        relay_url: Some(s("ws://192.168.1.10:8080")),
        device_id: Some(s("pi-kitchen")),
        log_level: LogLevel::Warn,
        token: Some(s("mysecret")),
        heartbeat_interval: Some(5),
        config: Some(b"/etc/agent.toml".to_vec()),
    };
    let c = AgentConfig::from_args(&args, s("host"), Some(s("/home/pi")), file);
    assert_eq!(c.relay_url, "ws://192.168.1.10:8080");
    assert_eq!(c.device_id, "pi-kitchen");
    assert_eq!(c.token, Some(s("mysecret")));
    assert_eq!(c.heartbeat_interval, 5);
    assert_eq!(c.log_level, "warn");
    assert_eq!(c.hostname, "host");
    assert_eq!(c.config_path, b"/etc/agent.toml".to_vec());
}

#[test]
fn hostname_prefers_non_empty_environment() {
    assert_eq!(resolve_hostname(Some(s("pi-env")), Some(s("pi-file\n"))), "pi-env");
    assert_eq!(resolve_hostname(Some(s("")), Some(s("  pi-file\n"))), "pi-file");
    assert_eq!(resolve_hostname(None, Some(s("raspberrypi\n"))), "raspberrypi");
    assert_eq!(resolve_hostname(None, Some(s(" \n\t"))), "unknown");
    assert_eq!(resolve_hostname(None, None), "unknown");
    assert_eq!(resolve_hostname(Some(s(" ")), None), " ");
}

#[test]
fn default_path_is_under_home() {
    assert_eq!(default_config_path(Some(s("/home/pi"))), "/home/pi/.config/nodevia/agent.toml");
    assert_eq!(default_config_path(Some(s("/home/pi/"))), "/home/pi/.config/nodevia/agent.toml");
    assert_eq!(default_config_path(None), "/root/.config/nodevia/agent.toml");
    assert_eq!(default_config_path(Some(s(""))), ".config/nodevia/agent.toml");
}

#[test]
fn join_adds_one_separator() {
    assert_eq!(join_path(s("a"), "b"), "a/b");
    assert_eq!(join_path(s("a/"), "b"), "a/b");
    assert_eq!(join_path(s(""), "b"), "b");
}

#[test]
fn config_flag_beats_home_and_keeps_raw_bytes() {
    let raw = vec![b'/', b't', 0xff, b'.', b't'];
    assert_eq!(choose_config_path(&Some(raw.clone()), Some(s("/home/pi"))), raw);
    assert_eq!(choose_config_path(&None, Some(s("/home/pi"))), b"/home/pi/.config/nodevia/agent.toml".to_vec());
    assert_eq!(choose_config_path(&None, None), b"/root/.config/nodevia/agent.toml".to_vec());
    assert_eq!(
        choose_config_path(&None, Some(s("/home/\u{e9}"))),
        "/home/\u{e9}/.config/nodevia/agent.toml".as_bytes().to_vec()
    );
}
