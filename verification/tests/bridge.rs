use gpio2mqtt::actuator::{CommandBatch, CommandWarning, OutputActuator, PinWrite};
use gpio2mqtt::config::{
    default_client_id, default_mqtt_port, default_topic, Config, GpioI2CConfig, GpioInputConfig,
    GpioOutputConfig, MqttConfig, PublishConfig, Pull,
};
use gpio2mqtt::data::RawValue;
use gpio2mqtt::json::{decode_command, encode_telemetry};
use gpio2mqtt::poller::{InputPoller, TelemetryMessage};
use std::collections::HashMap;

fn mqtt_config() -> MqttConfig {
    MqttConfig {
        host: "the.host".to_string(),
        port: default_mqtt_port(),
        username: None,
        password: None,
        client_id: default_client_id(),
        topic: default_topic(),
    }
}

fn config(
    inputs: Vec<(&str, u8)>,
    outputs: Vec<(&str, u8)>,
    i2cs: Vec<(&str, u8)>,
) -> Config {
    Config {
        mqtt: mqtt_config(),
        publish: PublishConfig { interval: Some(60), on_change: true },
        inputs: inputs
            .into_iter()
            .map(|(n, p)| (n.to_string(), GpioInputConfig { pin: p, pull: Some(Pull::Up) }))
            .collect(),
        outputs: outputs
            .into_iter()
            .map(|(n, p)| (n.to_string(), GpioOutputConfig { pin: p, default: None }))
            .collect(),
        i2cs: i2cs
            .into_iter()
            .map(|(n, b)| (n.to_string(), GpioI2CConfig { bus: b, module: None, address: None }))
            .collect(),
    }
}

#[test]
fn test_valid() {
    let c = config(
        vec![("in1", 23), ("in2", 24)],
        vec![("out1", 25), ("out2", 26)],
        vec![("climate", 1)],
    );
    assert!(c.validate().is_ok());
}

#[test]
fn test_invalid_duplicate_pin() {
    let c = config(vec![("in1", 24)], vec![("out1", 24)], vec![]);
    assert!(c.validate().unwrap_err().message().contains("Duplicate"));
}

#[test]
fn test_duplicate_pin_message_exact() {
    let c = config(vec![("in1", 24)], vec![("out1", 24)], vec![]);
    assert_eq!(c.validate().unwrap_err().message(), "Duplicate use of pin 24");
}

#[test]
fn test_defaults() {
    assert_eq!(default_mqtt_port(), 1883);
    assert_eq!(default_client_id(), "gpio2mqtt");
    assert_eq!(default_topic(), "gpio2mqtt");
    let p = PublishConfig::default();
    assert_eq!(p.interval, None);
    assert!(p.on_change);
}

#[test]
fn test_known_and_unknown_pin_in_one_batch() {
    let c = config(vec![], vec![("out1", 24)], vec![]);
    let mut actuator = OutputActuator::from_config(&c);
    let batch = CommandBatch {
        entries: vec![
            ("out1".to_string(), RawValue::Bool(true)),
            ("nosuch".to_string(), RawValue::Bool(true)),
        ],
    };
    let (writes, warnings) = actuator.apply_batch(&batch);
    assert_eq!(writes, vec![PinWrite { pin: 24, level: true }]);
    assert_eq!(warnings.len(), 1);
    assert!(matches!(&warnings[0], CommandWarning::UnknownPin(n) if n == "nosuch"));
    assert!(actuator.pins[0].level);
}

#[test]
fn test_toggle_and_bad_number_scenario() {
    // out1 on pin 24 with no default, in1 on pin 23.
    let c = config(vec![("in1", 23)], vec![("out1", 24)], vec![]);
    let mut actuator = OutputActuator::from_config(&c);
    assert_eq!(actuator.pins[0].pin, 24);
    assert!(!actuator.pins[0].level, "pin starts at the power-on default (low)");

    // {"out1": "toggle"} while the pin is low drives pin 24 high.
    let batch = decode_command(br#"{"out1": "toggle"}"#).unwrap();
    let (writes, warnings) = actuator.apply_batch(&batch);
    assert_eq!(writes, vec![PinWrite { pin: 24, level: true }]);
    assert!(warnings.is_empty());
    assert!(actuator.pins[0].level);

    // {"out1": 7} is a coercion error: logged, and pin 24 is unchanged.
    let batch = decode_command(br#"{"out1": 7}"#).unwrap();
    let (writes, warnings) = actuator.apply_batch(&batch);
    assert!(writes.is_empty());
    assert_eq!(warnings.len(), 1);
    assert!(matches!(&warnings[0], CommandWarning::BadValue(n, _) if n == "out1"));
    assert!(actuator.pins[0].level);
}

#[test]
fn test_output_default_levels() {
    let mut c = config(vec![], vec![("a", 1), ("b", 2), ("c", 3)], vec![]);
    c.outputs[1].1.default = Some(gpio2mqtt::config::Level::High);
    c.outputs[2].1.default = Some(gpio2mqtt::config::Level::Low);
    let actuator = OutputActuator::from_config(&c);
    assert!(!actuator.pins[0].level);
    assert!(actuator.pins[1].level);
    assert!(!actuator.pins[2].level);
}

#[test]
fn test_decode_command_values() {
    let batch =
        decode_command(br#"{"a":true,"b":2.5,"c":"on","d":null,"e":[1],"f":{"x":1},"g":12}"#)
            .unwrap();
    assert_eq!(batch.entries.len(), 7);
    assert!(matches!(batch.entries[0].1, RawValue::Bool(true)));
    assert!(matches!(batch.entries[1].1, RawValue::Number(None)));
    assert!(matches!(&batch.entries[2].1, RawValue::Str(s) if s == "on"));
    assert!(matches!(batch.entries[3].1, RawValue::Other));
    assert!(matches!(batch.entries[4].1, RawValue::Other));
    assert!(matches!(batch.entries[5].1, RawValue::Other));
    assert!(matches!(batch.entries[6].1, RawValue::Number(Some(12))));
}

#[test]
fn test_decode_command_malformed() {
    assert!(decode_command(br#"{"a":"#).is_none());
    assert!(decode_command(br#"[1,2]"#).is_none());
    assert!(decode_command(br#""just a string""#).is_none());
}

#[test]
fn test_poller_delta_on_edge() {
    let c = config(vec![("in1", 23), ("in2", 24)], vec![], vec![]);
    let poller = InputPoller::from_config(&c);
    let msg = poller.on_edge(23, true);
    assert_eq!(msg.entries.len(), 1);
    assert_eq!(msg.entries[0].0, "in1");
    assert!(msg.entries[0].1);
}

#[test]
fn test_poller_delta_unknown_pin_gets_synthetic_name() {
    let c = config(vec![("in1", 23)], vec![], vec![]);
    let poller = InputPoller::from_config(&c);
    let msg = poller.on_edge(7, false);
    assert_eq!(msg.entries.len(), 1);
    assert_eq!(msg.entries[0].0, "pin-7");
    assert!(!msg.entries[0].1);
    let msg = poller.on_edge(240, true);
    assert_eq!(msg.entries[0].0, "pin-240");
}

#[test]
fn test_poller_snapshot_on_timeout() {
    let c = config(vec![("in1", 23), ("in2", 24), ("in3", 25)], vec![], vec![]);
    let poller = InputPoller::from_config(&c);
    let msg = poller.on_timeout(&vec![true, false, true]);
    assert_eq!(msg.entries.len(), 3);
    assert_eq!(msg.entries[0], ("in1".to_string(), true));
    assert_eq!(msg.entries[1], ("in2".to_string(), false));
    assert_eq!(msg.entries[2], ("in3".to_string(), true));
}

#[test]
fn test_encode_telemetry_exact() {
    let c = config(vec![("in1", 23), ("in2", 24)], vec![], vec![]);
    let poller = InputPoller::from_config(&c);
    let msg = poller.on_timeout(&vec![true, false]);
    assert_eq!(encode_telemetry(&msg), r#"{"in1":true,"in2":false}"#);
    let delta = poller.on_edge(24, false);
    assert_eq!(encode_telemetry(&delta), r#"{"in2":false}"#);
}

#[test]
fn test_empty_snapshot_encodes_empty_object() {
    let c = config(vec![], vec![], vec![]);
    let poller = InputPoller::from_config(&c);
    let msg = poller.on_timeout(&vec![]);
    assert!(msg.entries.is_empty());
    assert_eq!(encode_telemetry(&msg), "{}");
    let decoded: HashMap<String, bool> = serde_json::from_str("{}").unwrap();
    assert!(decoded.is_empty());
}

#[test]
fn test_empty_batch_does_nothing() {
    let c = config(vec![], vec![("out1", 24)], vec![]);
    let mut actuator = OutputActuator::from_config(&c);
    let (writes, warnings) = actuator.apply_batch(&CommandBatch { entries: vec![] });
    assert!(writes.is_empty());
    assert!(warnings.is_empty());
    assert!(!actuator.pins[0].level);
}

#[test]
fn test_batch_entries_apply_in_order_to_one_pin() {
    // A later entry for the same pin sees the earlier entry's effect.
    let c = config(vec![], vec![("out1", 24)], vec![]);
    let mut actuator = OutputActuator::from_config(&c);
    let batch = CommandBatch {
        entries: vec![
            ("out1".to_string(), RawValue::Bool(true)),
            ("out1".to_string(), RawValue::Str("toggle".to_string())),
        ],
    };
    let (writes, warnings) = actuator.apply_batch(&batch);
    assert_eq!(
        writes,
        vec![PinWrite { pin: 24, level: true }, PinWrite { pin: 24, level: false }]
    );
    assert!(warnings.is_empty());
    assert!(!actuator.pins[0].level);
}

#[test]
fn test_double_toggle_restores_level() {
    let c = config(vec![], vec![("out1", 24)], vec![]);
    let mut actuator = OutputActuator::from_config(&c);
    let toggle = CommandBatch {
        entries: vec![("out1".to_string(), RawValue::Str("toggle".to_string()))],
    };
    let before = actuator.pins[0].level;
    actuator.apply_batch(&toggle);
    assert_eq!(actuator.pins[0].level, !before);
    actuator.apply_batch(&toggle);
    assert_eq!(actuator.pins[0].level, before);
}

#[test]
fn test_duplicate_names_write_first_matching_pin() {
    // Two outputs may share a name (only pin numbers are validated unique);
    // a command addresses the first of them.
    let c = config(vec![], vec![("out1", 24), ("out1", 25)], vec![]);
    let mut actuator = OutputActuator::from_config(&c);
    let batch = CommandBatch { entries: vec![("out1".to_string(), RawValue::Bool(true))] };
    let (writes, _) = actuator.apply_batch(&batch);
    assert_eq!(writes, vec![PinWrite { pin: 24, level: true }]);
    assert!(actuator.pins[0].level);
    assert!(!actuator.pins[1].level);
}

#[test]
fn test_encode_escapes_quotes_and_backslashes() {
    let msg = TelemetryMessage {
        entries: vec![("a\"b".to_string(), true), ("c\\d".to_string(), false)],
    };
    let wire = encode_telemetry(&msg);
    assert_eq!(wire, r#"{"a\"b":true,"c\\d":false}"#);
    let decoded: HashMap<String, bool> = serde_json::from_str(&wire).unwrap();
    assert_eq!(decoded.get("a\"b"), Some(&true));
    assert_eq!(decoded.get("c\\d"), Some(&false));
}

#[test]
fn test_encode_escapes_control_characters() {
    let msg = TelemetryMessage { entries: vec![("a\nb".to_string(), true)] };
    let wire = encode_telemetry(&msg);
    assert_eq!(wire, r#"{"a\u000ab":true}"#);
    let decoded: HashMap<String, bool> = serde_json::from_str(&wire).unwrap();
    assert_eq!(decoded.get("a\nb"), Some(&true));
}

#[test]
fn test_telemetry_round_trip() {
    // A published snapshot, decoded as JSON, equals the source pin levels.
    let c = config(vec![("in1", 23), ("in2", 24), ("in3", 25)], vec![], vec![]);
    let poller = InputPoller::from_config(&c);
    let levels = vec![false, true, true];
    let msg = poller.on_timeout(&levels);
    let wire = encode_telemetry(&msg);
    let decoded: HashMap<String, bool> = serde_json::from_str(&wire).unwrap();
    let expected: HashMap<String, bool> = vec![
        ("in1".to_string(), false),
        ("in2".to_string(), true),
        ("in3".to_string(), true),
    ]
    .into_iter()
    .collect();
    assert_eq!(decoded, expected);

    // The same for a delta.
    let delta = poller.on_edge(23, true);
    let decoded: HashMap<String, bool> =
        serde_json::from_str(&encode_telemetry(&delta)).unwrap();
    let expected: HashMap<String, bool> =
        vec![("in1".to_string(), true)].into_iter().collect();
    assert_eq!(decoded, expected);
}
