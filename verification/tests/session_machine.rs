use gpio2mqtt::actuator::CommandBatch;
use gpio2mqtt::data::RawValue;
use gpio2mqtt::session::{command_topic, is_command_topic, step, BusAction, BusEvent, ConnectionState};

#[test]
fn test_retryable_errors_recover_to_ready() {
    // The connection drops with a retryable error three times in a row; after
    // each wait the session re-enters Connecting, and a later handshake
    // reaches Ready with no operator intervention.
    let mut state = ConnectionState::Disconnected;
    let (s, a) = step(state, BusEvent::Tick);
    state = s;
    assert_eq!(state, ConnectionState::Connecting);
    assert!(matches!(a, BusAction::Connect));

    for _ in 0..3 {
        let (s, a) = step(state, BusEvent::RetryableError);
        state = s;
        assert_eq!(state, ConnectionState::RetryWait);
        assert!(matches!(a, BusAction::Wait));
        let (s, a) = step(state, BusEvent::Tick);
        state = s;
        assert_eq!(state, ConnectionState::Connecting);
        assert!(matches!(a, BusAction::Connect));
    }

    let (s, a) = step(state, BusEvent::ConnAck);
    state = s;
    assert_eq!(state, ConnectionState::Connected);
    assert!(matches!(a, BusAction::Subscribe));
    let (s, _) = step(state, BusEvent::Tick);
    state = s;
    assert_eq!(state, ConnectionState::Subscribing);
    let (s, _) = step(state, BusEvent::SubAck);
    state = s;
    assert_eq!(state, ConnectionState::Ready);
}

#[test]
fn test_refusal_aborts_exactly_once() {
    // An explicit refusal moves to Aborted with a single Stop, and no later
    // event leaves Aborted or asks for another connection attempt.
    let (state, action) = step(ConnectionState::Connecting, BusEvent::FatalError);
    assert_eq!(state, ConnectionState::Aborted);
    assert!(matches!(action, BusAction::Stop));

    let events = vec![
        BusEvent::Tick,
        BusEvent::RetryableError,
        BusEvent::ConnAck,
        BusEvent::SubAck,
        BusEvent::KeepAlive,
        BusEvent::FatalError,
    ];
    for e in events {
        let (s, a) = step(state, e);
        assert_eq!(s, ConnectionState::Aborted);
        assert!(matches!(a, BusAction::Ignore));
    }
}

#[test]
fn test_ready_forwards_commands_and_drops_malformed() {
    let batch = CommandBatch { entries: vec![("out1".to_string(), RawValue::Bool(true))] };
    let (s, a) = step(
        ConnectionState::Ready,
        BusEvent::Message { on_command_topic: true, batch: Some(batch) },
    );
    assert_eq!(s, ConnectionState::Ready);
    match a {
        BusAction::Forward(b) => {
            assert_eq!(b.entries.len(), 1);
            assert_eq!(b.entries[0].0, "out1");
        },
        other => panic!("expected Forward, got {:?}", other),
    }

    let (s, a) = step(
        ConnectionState::Ready,
        BusEvent::Message { on_command_topic: true, batch: None },
    );
    assert_eq!(s, ConnectionState::Ready);
    assert!(matches!(a, BusAction::DropMalformed));

    let (s, a) = step(
        ConnectionState::Ready,
        BusEvent::Message { on_command_topic: false, batch: None },
    );
    assert_eq!(s, ConnectionState::Ready);
    assert!(matches!(a, BusAction::Ignore));
}

#[test]
fn test_keep_alive_is_ignored() {
    for state in [
        ConnectionState::Disconnected,
        ConnectionState::Connecting,
        ConnectionState::Connected,
        ConnectionState::Subscribing,
        ConnectionState::Ready,
        ConnectionState::RetryWait,
    ] {
        let (s, a) = step(state, BusEvent::KeepAlive);
        assert_eq!(s, state);
        assert!(matches!(a, BusAction::Ignore));
    }
}

#[test]
fn test_command_topic() {
    assert_eq!(command_topic("gpio2mqtt"), "gpio2mqtt/set");
    assert!(is_command_topic("gpio2mqtt/set", "gpio2mqtt"));
    assert!(!is_command_topic("gpio2mqtt", "gpio2mqtt"));
    assert!(!is_command_topic("other/set", "gpio2mqtt"));
}
