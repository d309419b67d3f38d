use wtg::mqtt::{
    build_connect_body, cleanup_metric_keys, default_ha_discovery_prefix,
    format_availability_topic, format_ha_discovery_topic, ha_discovery_cleanup_specs,
    validate_node_id, validate_topic_prefix, MqttAuthOptions, MqttHaDiscoveryOptions,
    MqttOptions, MqttWill, DEFAULT_MQTT_PORT,
};
use wtg::mqtt_packet::{
    check_connack_body, connack_reason, decode_remaining_length, RemainingLength, encode_remaining_length,
    frame_packet, publish_body, publish_packet_type,
};

fn connect_payload_strings(body: &[u8]) -> Vec<String> {
    let mut offset = 10;
    let mut strings = Vec::new();

    while offset < body.len() {
        let len = ((body[offset] as usize) << 8) | body[offset + 1] as usize;
        offset += 2;
        strings.push(String::from_utf8(body[offset..offset + len].to_vec()).unwrap());
        offset += len;
    }

    strings
}

#[test]
fn options_apply_topic_defaults_and_normalization() {
    let options = MqttOptions::new(
        " broker ".to_string(),
        DEFAULT_MQTT_PORT,
        "/wtg/".to_string(),
        "node-a".to_string(),
        None,
        false,
        None,
    )
    .unwrap();

    assert_eq!(options.host, "broker");
    assert_eq!(options.port, 1883);
    assert_eq!(options.topic_prefix, "wtg");
    assert_eq!(options.node_id, "node-a");
    assert!(options.auth.is_none());
    assert!(!options.ha_availability);
    assert!(options.ha_discovery.is_none());
}

#[test]
fn options_support_username_password_auth_with_redacted_debug() {
    let password = String::from_utf8(vec![115, 101, 99, 114, 101, 116]).unwrap();
    let auth = MqttAuthOptions::new(" user ".to_string(), password.clone()).unwrap();
    let options = MqttOptions::new(
        "broker".to_string(),
        DEFAULT_MQTT_PORT,
        "wtg".to_string(),
        "node-a".to_string(),
        Some(auth),
        false,
        None,
    )
    .unwrap();

    assert_eq!(options.auth.as_ref().unwrap().username, "user");
    let debug = options.auth.as_ref().unwrap().redacted_text();
    assert!(debug.contains("user"));
    assert!(debug.contains("<redacted>"));
    assert!(!debug.contains(&password));
    let options_debug = options.redacted_text();
    assert!(options_debug.contains("<redacted>"));
    assert!(!options_debug.contains(&password));
}

#[test]
fn ha_discovery_options_apply_defaults_and_normalization() {
    assert_eq!(default_ha_discovery_prefix(), "homeassistant");

    let discovery = MqttHaDiscoveryOptions::new("/homeassistant/".to_string(), true).unwrap();

    assert_eq!(discovery.prefix, "homeassistant");
}

#[test]
fn options_enable_ha_retained_availability_lwt() {
    let discovery = MqttHaDiscoveryOptions::new("homeassistant".to_string(), true).unwrap();
    let options = MqttOptions::new(
        "broker".to_string(),
        DEFAULT_MQTT_PORT,
        "wtg".to_string(),
        "node-a".to_string(),
        None,
        true,
        Some(discovery),
    )
    .unwrap();

    let will = options.connect_will().unwrap();

    assert_eq!(will.topic, "wtg/node-a/status");
    assert_eq!(will.payload, "offline");
    assert!(will.retain);
}

#[test]
fn remaining_length_encoding_matches_mqtt_examples() {
    assert_eq!(encode_remaining_length(0).unwrap(), vec![0x00]);
    assert_eq!(encode_remaining_length(127).unwrap(), vec![0x7f]);
    assert_eq!(encode_remaining_length(128).unwrap(), vec![0x80, 0x01]);
    assert_eq!(encode_remaining_length(16_384).unwrap(), vec![0x80, 0x80, 0x01]);
}

#[test]
fn anonymous_connect_uses_clean_session_flags() {
    let body = build_connect_body("client-a", None, None).unwrap();

    assert_eq!(body[7], 0x02);
    let strings = connect_payload_strings(&body);
    assert_eq!(strings.len(), 1);
    assert_eq!(strings[0], "client-a");
}

#[test]
fn authenticated_connect_uses_username_password_flags_and_payload_order() {
    let password = String::from_utf8(vec![115, 101, 99, 114, 101, 116]).unwrap();
    let auth = MqttAuthOptions::new("user".to_string(), password.clone()).unwrap();

    let body = build_connect_body("client-a", Some(&auth), None).unwrap();

    assert_eq!(body[7], 0xc2);
    let strings = connect_payload_strings(&body);
    assert_eq!(strings.len(), 3);
    assert_eq!(strings[0], "client-a");
    assert_eq!(strings[1], "user");
    assert!(strings[2] == password);
}

#[test]
fn ha_availability_connect_uses_retained_lwt_flags_and_payload_order() {
    let will = MqttWill {
        topic: "wtg/node-a/status".to_string(),
        payload: "offline".to_string(),
        retain: true,
    };

    let body = build_connect_body("client-a", None, Some(&will)).unwrap();

    assert_eq!(body[7], 0x26);
    let strings = connect_payload_strings(&body);
    assert_eq!(
        strings,
        vec!["client-a".to_string(), "wtg/node-a/status".to_string(), "offline".to_string()]
    );
}

#[test]
fn authenticated_ha_availability_connect_keeps_mqtt_payload_order() {
    let password = String::from_utf8(vec![115, 101, 99, 114, 101, 116]).unwrap();
    let auth = MqttAuthOptions::new("user".to_string(), password.clone()).unwrap();
    let will = MqttWill {
        topic: "wtg/node-a/status".to_string(),
        payload: "offline".to_string(),
        retain: true,
    };

    let body = build_connect_body("client-a", Some(&auth), Some(&will)).unwrap();

    assert_eq!(body[7], 0xe6);
    let strings = connect_payload_strings(&body);
    assert_eq!(strings.len(), 5);
    assert_eq!(strings[0], "client-a");
    assert_eq!(strings[1], "wtg/node-a/status");
    assert_eq!(strings[2], "offline");
    assert_eq!(strings[3], "user");
    assert!(strings[4] == password);
}

#[test]
fn topic_helpers_use_predictable_shape() {
    assert_eq!(format_availability_topic("wtg", "node-a"), "wtg/node-a/status");
    assert_eq!(
        format_ha_discovery_topic("homeassistant", "node-a", 2, "power_w"),
        "homeassistant/sensor/wtg_node-a_gpu2_power_w/config"
    );
}

#[test]
fn publish_packet_type_sets_retain_only_when_requested() {
    assert_eq!(publish_packet_type(false), 0x30);
    assert_eq!(publish_packet_type(true), 0x31);
}

#[test]
fn ha_discovery_cleanup_specs_clear_discovery_and_availability_retained() {
    let specs = ha_discovery_cleanup_specs("homeassistant", "wtg", "node-a", &[0]);

    assert_eq!(specs.len(), cleanup_metric_keys().len() + 1);
    let power = specs
        .iter()
        .find(|spec| spec.topic == "homeassistant/sensor/wtg_node-a_gpu0_power_w/config")
        .unwrap();
    assert!(power.payload.is_empty());
    assert!(power.retain);

    let availability = specs.last().unwrap();
    assert_eq!(availability.topic, "wtg/node-a/status");
    assert!(availability.payload.is_empty());
    assert!(availability.retain);
}

#[test]
fn remaining_length_decodes_what_it_encodes() {
    for len in [0usize, 1, 127, 128, 300, 16_383, 16_384, 2_097_151, 2_097_152, 268_435_455] {
        let bytes = encode_remaining_length(len).unwrap();
        match decode_remaining_length(&bytes) {
            RemainingLength::Complete { value, consumed } => {
                assert_eq!(value, len);
                assert_eq!(consumed, bytes.len());
            }
            _ => panic!("expected a complete length for {len}"),
        }
    }
}

#[test]
fn remaining_length_refuses_too_large_values() {
    assert!(encode_remaining_length(268_435_456).is_err());
}

#[test]
fn publish_body_and_frame() {
    let body = publish_body("a/b", b"on").unwrap();
    assert_eq!(body, vec![0, 3, b'a', b'/', b'b', b'o', b'n']);
    let packet = frame_packet(publish_packet_type(true), &body).unwrap();
    assert_eq!(packet[0], 0x31);
    assert_eq!(packet[1], 7);
    assert_eq!(&packet[2..], &body[..]);
}

#[test]
fn connack_reasons_and_checks() {
    assert!(check_connack_body(&[0, 0]).is_ok());
    assert!(check_connack_body(&[0, 5]).is_err());
    assert_eq!(connack_reason(5), "not authorized");
}

#[test]
fn topic_prefix_and_node_checks() {
    assert_eq!(validate_topic_prefix("--mqtt-topic-prefix", " /a/b/ ").unwrap(), "a/b");
    assert!(validate_topic_prefix("--mqtt-topic-prefix", "a/+/b").is_err());
    assert!(validate_node_id("node/a").is_err());
    assert_eq!(validate_node_id(" node-a ").unwrap(), "node-a");
}

#[test]
fn client_id_names_node_and_process() {
    let options = MqttOptions::new(
        "broker".to_string(),
        DEFAULT_MQTT_PORT,
        "wtg".to_string(),
        "node-a".to_string(),
        None,
        false,
        None,
    )
    .unwrap();
    assert_eq!(options.client_id(42), "wtg-node-a-42");
}
