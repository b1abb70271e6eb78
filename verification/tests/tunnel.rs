use nodevia_agent::message::AgentMessage;
use nodevia_agent::tunnel::{Pump, PumpAction, PumpEvent, BUF_SIZE};

#[test]
fn tcp_bytes_go_to_relay_unchanged() {
    let mut p = Pump::new();
    assert_eq!(
        p.on_event(PumpEvent::TcpRead(b"SSH-2.0".to_vec())),
        PumpAction::SendToRelay(b"SSH-2.0".to_vec())
    );
    assert!(p.open());
}

#[test]
fn relay_bytes_go_to_tcp_unchanged() {
    let mut p = Pump::new();
    assert_eq!(
        p.on_event(PumpEvent::RelayBinary(vec![1, 2, 3])),
        PumpAction::WriteToTcp(vec![1, 2, 3])
    );
    assert!(p.open());
}

#[test]
fn tcp_eof_notifies_relay_and_ends() {
    let mut p = Pump::new();
    assert_eq!(p.on_event(PumpEvent::TcpRead(Vec::new())), PumpAction::NotifyClose);
    assert!(!p.open());
    assert_eq!(p.on_event(PumpEvent::TcpRead(vec![9])), PumpAction::Wait);
}

#[test]
fn relay_tunnel_close_ends_without_notice() {
    let mut p = Pump::new();
    let ack = AgentMessage::Ack { device_id: "x".to_string() };
    assert_eq!(p.on_event(PumpEvent::RelayText(Some(ack))), PumpAction::Wait);
    assert_eq!(p.on_event(PumpEvent::RelayText(None)), PumpAction::Wait);
    assert_eq!(p.on_event(PumpEvent::RelayOther), PumpAction::Wait);
    assert_eq!(p.on_event(PumpEvent::RelayText(Some(AgentMessage::TunnelClose))), PumpAction::Finish);
    assert!(!p.open());
}

#[test]
fn errors_and_close_end_the_tunnel() {
    let mut p = Pump::new();
    assert_eq!(p.on_event(PumpEvent::RelayClosed), PumpAction::Finish);
    let mut p = Pump::new();
    assert_eq!(p.on_event(PumpEvent::RelayError), PumpAction::Fail);
    let mut p = Pump::new();
    assert_eq!(p.on_event(PumpEvent::TcpError), PumpAction::Fail);
}

#[test]
fn forwarded_stream_is_the_read_stream() {
    let mut p = Pump::new();
    let events = vec![
        PumpEvent::TcpRead(vec![1, 2]),
        PumpEvent::RelayBinary(vec![7]),
        PumpEvent::TcpRead(vec![3]),
        PumpEvent::RelayOther,
        PumpEvent::TcpRead(Vec::new()),
        PumpEvent::TcpRead(vec![4]),
    ];
    let mut to_relay = Vec::new();
    let mut to_tcp = Vec::new();
    for e in events {
        match p.on_event(e) {
            PumpAction::SendToRelay(d) => to_relay.extend(d),
            PumpAction::WriteToTcp(d) => to_tcp.extend(d),
            _ => {}
        }
    }
    assert_eq!(to_relay, vec![1, 2, 3]);
    assert_eq!(to_tcp, vec![7]);
    assert_eq!(BUF_SIZE, 4096);
}
