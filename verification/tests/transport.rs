use nodevia_agent::transport::{parse_relay_url, BackoffConfig, Reconnect, TransportError};

#[test]
fn test_invalid_url_returns_error() {
    let result = parse_relay_url("not-a-url");
    assert!(result.is_err(), "Expected an error for a malformed URL");
    assert_eq!(result, Err(TransportError::InvalidUrl));
}

#[test]
fn valid_url_is_normalised() {
    assert_eq!(parse_relay_url("ws://localhost:8080"), Ok("ws://localhost:8080/".to_string()));
    assert_eq!(
        parse_relay_url("wss://Relay.Example.com/agent"),
        Ok("wss://relay.example.com/agent".to_string())
    );
}

#[test]
fn url_with_bad_port_is_rejected() {
    assert_eq!(parse_relay_url("ws://localhost:99999"), Err(TransportError::InvalidUrl));
    assert_eq!(parse_relay_url(""), Err(TransportError::InvalidUrl));
}

#[test]
fn default_backoff_is_one_second_to_one_minute() {
    let c = BackoffConfig::default();
    assert_eq!(c.initial_ms, 1_000);
    assert_eq!(c.max_ms, 60_000);
    assert_eq!(c.first_delay(), 1_000);
}

#[test]
fn next_delay_doubles_up_to_the_cap() {
    let c = BackoffConfig { initial_ms: 1_000, max_ms: 60_000 };
    assert_eq!(c.next_delay(1_000), 2_000);
    assert_eq!(c.next_delay(30_000), 60_000);
    assert_eq!(c.next_delay(32_000), 60_000);
    assert_eq!(c.next_delay(60_000), 60_000);
    assert_eq!(c.next_delay(0), 0);
}

#[test]
fn test_connect_with_retry_loops_on_failure() {
    let config = BackoffConfig { initial_ms: 50, max_ms: 100 };
    let mut r = Reconnect::new(config);
    let mut slept = Vec::new();
    for _ in 0..6 {
        slept.push(r.on_failure());
    }
    assert_eq!(slept, vec![50, 100, 100, 100, 100, 100]);
    assert_eq!(r.pending_delay(), 100);
}

#[test]
fn default_backoff_sequence_reaches_cap() {
    let mut r = Reconnect::new(BackoffConfig::default());
    let mut slept = Vec::new();
    for _ in 0..9 {
        slept.push(r.on_failure());
    }
    assert_eq!(
        slept,
        vec![1_000, 2_000, 4_000, 8_000, 16_000, 32_000, 60_000, 60_000, 60_000]
    );
}

#[test]
fn first_delay_above_cap_is_kept_once() {
    let mut r = Reconnect::new(BackoffConfig { initial_ms: 500, max_ms: 100 });
    assert_eq!(r.on_failure(), 500);
    assert_eq!(r.on_failure(), 100);
    assert_eq!(r.on_failure(), 100);
}
