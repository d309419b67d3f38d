use wtg::config::{config_template, default_config_file_name, refuse_overwrite_message, toml_escape, SavedMqttConfig};

fn saved(password: Option<&str>, password_env: Option<&str>, username: &str) -> SavedMqttConfig {
    SavedMqttConfig {
        host: "broker".to_string(),
        port: 1883,
        username: username.to_string(),
        password: password.map(|p| p.to_string()),
        password_env: password_env.map(|p| p.to_string()),
        topic_prefix: "wtg".to_string(),
        node_id: "test".to_string(),
        ha_discovery: false,
        ha_discovery_prefix: "homeassistant".to_string(),
        ha_retain_discovery: false,
    }
}

#[test]
fn template_contains_mqtt_sections() {
    let template = config_template();

    assert!(template.contains("[mqtt]"));
    assert!(template.contains("[mqtt.home_assistant]"));
}

#[test]
fn template_contains_password_field() {
    let template = config_template();
    assert!(template.contains("password = \"\""));
}

#[test]
fn template_keeps_environment_specific_values_blank() {
    let template = config_template();

    assert!(template.contains("host = \"\""));
    assert!(template.contains("username = \"\""));
    assert!(template.contains("password = \"\""));
    assert!(template.contains("password_env = \"\""));
    assert!(template.contains("node_id = \"\""));
}

#[test]
fn saved_mqtt_config_debug_redacts_password() {
    let config = saved(Some("secret123"), None, "user");

    let debug_str = config.redacted_text();
    assert!(debug_str.contains("[REDACTED]"));
    assert!(!debug_str.contains("secret123"));
}

#[test]
fn saved_mqtt_config_debug_no_password() {
    let config = saved(None, Some("VAR"), "");

    let debug_str = config.redacted_text();
    assert!(debug_str.contains("None"));
    assert!(!debug_str.contains("[REDACTED]"));
}

#[test]
fn toml_escape_quote() {
    let result = toml_escape("test\"quote");
    assert_eq!(result, "test\\\"quote");
}

#[test]
fn toml_escape_backslash() {
    let result = toml_escape("test\\backslash");
    assert_eq!(result, "test\\\\backslash");
}

#[test]
fn toml_escape_newline() {
    let result = toml_escape("test\nnewline");
    assert_eq!(result, "test\\nnewline");
}

#[test]
fn toml_escape_carriage_return() {
    let result = toml_escape("test\rcarriage");
    assert_eq!(result, "test\\rcarriage");
}

#[test]
fn toml_escape_tab() {
    let result = toml_escape("test\ttab");
    assert_eq!(result, "test\\ttab");
}

#[test]
fn toml_escape_mixed() {
    let result = toml_escape("line1\nline2\t\"quoted\"\\end");
    assert_eq!(result, "line1\\nline2\\t\\\"quoted\\\"\\\\end");
}

#[test]
fn saved_config_toml_with_direct_password() {
    let mut config = saved(Some("test123"), None, "wtg");
    config.host = "broker.local".to_string();
    config.ha_discovery = true;
    config.ha_retain_discovery = true;

    let content = config.to_toml();
    assert!(content.contains("enabled = true"));
    assert!(content.contains("host = \"broker.local\""));
    assert!(content.contains("port = 1883"));
    assert!(content.contains("password = \"test123\""));
    assert!(content.contains("password_env = \"\""));
    assert!(content.contains("[mqtt.home_assistant]\ndiscovery = true"));
    assert!(content.contains("retain_discovery = true"));
}

#[test]
fn saved_config_toml_with_password_env() {
    let config = saved(None, Some("WTG_MQTT_PASSWORD"), "wtg");

    let content = config.to_toml();
    assert!(content.contains("password = \"\""));
    assert!(content.contains("password_env = \"WTG_MQTT_PASSWORD\""));
    assert!(content.contains("discovery = false"));
}

#[test]
fn saved_config_toml_escapes_values() {
    let mut config = saved(Some("a\"b"), None, "wtg");
    config.node_id = "x\\y".to_string();

    let content = config.to_toml();
    assert!(content.contains("password = \"a\\\"b\""));
    assert!(content.contains("node_id = \"x\\\\y\""));
}

#[test]
fn redacted_text_is_the_same_for_any_password() {
    let a = saved(Some("first"), None, "user");
    let b = saved(Some("second"), None, "user");
    assert_eq!(a.redacted_text(), b.redacted_text());
}

#[test]
fn default_config_file_name_is_wtg_toml() {
    assert_eq!(default_config_file_name(), "wtg.toml");
}

#[test]
fn refuse_overwrite_message_names_the_file() {
    assert_eq!(
        refuse_overwrite_message("wtg.toml"),
        "wtg.toml already exists; refusing to overwrite it. Use --force-config to overwrite."
    );
}
