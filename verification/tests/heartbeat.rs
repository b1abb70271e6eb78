use nodevia_agent::config::AgentConfig;
use nodevia_agent::heartbeat::{register_message, Heartbeat, HeartbeatAction, RelayEvent};
use nodevia_agent::message::AgentMessage;

fn config() -> AgentConfig {
    AgentConfig {
        relay_url: "ws://localhost:8080".to_string(),
        device_id: "pi-001".to_string(),
        hostname: "raspberrypi".to_string(),
        token: Some("mysecret".to_string()),
        heartbeat_interval: 30,
        log_level: "info".to_string(),
        config_path: b"/root/.config/nodevia/agent.toml".to_vec(),
    }
}

#[test]
fn registration_carries_config() {
    let m = register_message(&config(), "linux");
    assert_eq!(
        m,
        AgentMessage::Register {
            device_id: "pi-001".to_string(),
            hostname: "raspberrypi".to_string(),
            platform: "linux".to_string(),
            token: Some("mysecret".to_string()),
        }
    );
}

#[test]
fn tick_sends_ping_and_messages_are_ignored() {
    let mut h = Heartbeat::new();
    assert_eq!(h.on_event(RelayEvent::Tick), HeartbeatAction::SendPing);
    let ack = AgentMessage::Ack { device_id: "pi-001".to_string() };
    assert_eq!(h.on_event(RelayEvent::Text(Some(ack))), HeartbeatAction::Wait);
    assert_eq!(h.on_event(RelayEvent::Text(None)), HeartbeatAction::Wait);
    assert_eq!(h.on_event(RelayEvent::Pong), HeartbeatAction::Wait);
    assert_eq!(h.on_event(RelayEvent::Other), HeartbeatAction::Wait);
    assert_eq!(h.on_event(RelayEvent::Text(Some(AgentMessage::TunnelClose))), HeartbeatAction::Wait);
    assert!(!h.over());
    assert_eq!(h.on_event(RelayEvent::Tick), HeartbeatAction::SendPing);
}

#[test]
fn tunnel_request_hands_over_host_and_port() {
    let mut h = Heartbeat::new();
    let open = AgentMessage::TunnelOpen { host: "localhost".to_string(), port: 22 };
    assert_eq!(
        h.on_event(RelayEvent::Text(Some(open))),
        HeartbeatAction::OpenTunnel { host: "localhost".to_string(), port: 22 }
    );
    assert!(h.over());
    assert_eq!(h.on_event(RelayEvent::Tick), HeartbeatAction::Wait);
}

#[test]
fn close_end_and_error_end_the_session() {
    let mut h = Heartbeat::new();
    assert_eq!(h.on_event(RelayEvent::Close), HeartbeatAction::Finish);
    assert!(h.over());
    let mut h = Heartbeat::new();
    assert_eq!(h.on_event(RelayEvent::End), HeartbeatAction::Finish);
    let mut h = Heartbeat::new();
    assert_eq!(h.on_event(RelayEvent::Error), HeartbeatAction::Fail);
    assert_eq!(h.on_event(RelayEvent::Close), HeartbeatAction::Wait);
}

#[test]
fn one_ping_per_tick_until_the_end() {
    let mut h = Heartbeat::new();
    let events = vec![
        RelayEvent::Tick,
        RelayEvent::Pong,
        RelayEvent::Tick,
        RelayEvent::Tick,
        RelayEvent::End,
        RelayEvent::Tick,
        RelayEvent::Tick,
    ];
    let pings = events
        .into_iter()
        .map(|e| h.on_event(e))
        .filter(|a| *a == HeartbeatAction::SendPing)
        .count();
    assert_eq!(pings, 3);
}
