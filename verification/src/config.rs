//! The optional `wtg.toml` configuration: its model, the template, and the
//! rendering of a saved MQTT configuration.
use vstd::prelude::*;

use crate::json::json_string_spec;
use crate::json::push_json_string;
use crate::text::{chars_of, dec, non_blank, opt_view, owned, push_char, push_dec, push_str, trim_to_option_spec};

verus! {

/// The file name that `--mqtt-init-config` and `--mqtt-save-config` write.
pub open spec fn default_config_file_name_spec() -> Seq<char> {
    "wtg.toml"@
}

/// The file name that `--mqtt-init-config` and `--mqtt-save-config` write.
pub fn default_config_file_name() -> (r: &'static str)
    ensures
        r@ == default_config_file_name_spec(),
{
    "wtg.toml"
}

/// The whole configuration file.
#[derive(Clone)]
pub struct WtgConfig {
    pub mqtt: Option<MqttConfig>,
}

/// The `[mqtt]` table; every key is optional.
#[derive(Clone)]
pub struct MqttConfig {
    pub enabled: Option<bool>,
    pub host: Option<String>,
    pub port: Option<u16>,
    pub username: Option<String>,
    pub password: Option<String>,
    pub password_env: Option<String>,
    pub topic_prefix: Option<String>,
    pub node_id: Option<String>,
    pub home_assistant: Option<HomeAssistantConfig>,
}

/// The `[mqtt.home_assistant]` table.
#[derive(Clone)]
pub struct HomeAssistantConfig {
    pub discovery: Option<bool>,
    pub discovery_prefix: Option<String>,
    pub retain_discovery: Option<bool>,
}

/// The view of an optional owned string.
pub open spec fn ov(value: Option<String>) -> Option<Seq<char>> {
    match value {
        Some(v) => Some(v@),
        None => None,
    }
}

/// The view of a borrowed optional owned string.
pub fn as_deref(value: &Option<String>) -> (r: Option<&str>)
    ensures
        opt_view(r) == ov(*value),
{
    match value {
        Some(v) => Some(v.as_str()),
        None => None,
    }
}

impl MqttConfig {
    /// `enabled`, false when absent.
    pub fn enabled(&self) -> (b: bool)
        ensures
            b == (self.enabled == Some(true)),
    {
        match self.enabled {
            Some(b) => b,
            None => false,
        }
    }

    /// `host`, trimmed, absent when blank.
    pub fn host(&self) -> (r: Option<&str>)
        ensures
            opt_view(r) == trim_to_option_spec(ov(self.host)),
    {
        non_blank(as_deref(&self.host))
    }

    /// `username`, trimmed, absent when blank.
    pub fn username(&self) -> (r: Option<&str>)
        ensures
            opt_view(r) == trim_to_option_spec(ov(self.username)),
    {
        non_blank(as_deref(&self.username))
    }

    /// `password`, trimmed, absent when blank.
    pub fn password(&self) -> (r: Option<&str>)
        ensures
            opt_view(r) == trim_to_option_spec(ov(self.password)),
    {
        non_blank(as_deref(&self.password))
    }

    /// `password_env`, trimmed, absent when blank.
    pub fn password_env(&self) -> (r: Option<&str>)
        ensures
            opt_view(r) == trim_to_option_spec(ov(self.password_env)),
    {
        non_blank(as_deref(&self.password_env))
    }

    /// `topic_prefix`, trimmed, absent when blank.
    pub fn topic_prefix(&self) -> (r: Option<&str>)
        ensures
            opt_view(r) == trim_to_option_spec(ov(self.topic_prefix)),
    {
        non_blank(as_deref(&self.topic_prefix))
    }

    /// `node_id`, trimmed, absent when blank.
    pub fn node_id(&self) -> (r: Option<&str>)
        ensures
            opt_view(r) == trim_to_option_spec(ov(self.node_id)),
    {
        non_blank(as_deref(&self.node_id))
    }
}

impl HomeAssistantConfig {
    /// `discovery_prefix`, trimmed, absent when blank.
    pub fn discovery_prefix(&self) -> (r: Option<&str>)
        ensures
            opt_view(r) == trim_to_option_spec(ov(self.discovery_prefix)),
    {
        non_blank(as_deref(&self.discovery_prefix))
    }
}

/// The template that `--mqtt-init-config` writes.
pub open spec fn config_template_spec() -> Seq<char> {
    "# WTG CLI configuration.\n# WTG never auto-loads this file. Use --config <path> explicitly.\n# Leave environment-specific values blank until you are ready to use them.\n\n[mqtt]\nenabled = false\nhost = \"\"\nport = 1883\nusername = \"\"\npassword = \"\"\npassword_env = \"\"\ntopic_prefix = \"wtg\"\nnode_id = \"\"\n\n[mqtt.home_assistant]\ndiscovery = false\ndiscovery_prefix = \"homeassistant\"\nretain_discovery = true\n"@
}

/// The configuration template, with every environment-specific value blank.
pub fn config_template() -> (r: &'static str)
    ensures
        r@ == config_template_spec(),
{
    "# WTG CLI configuration.\n# WTG never auto-loads this file. Use --config <path> explicitly.\n# Leave environment-specific values blank until you are ready to use them.\n\n[mqtt]\nenabled = false\nhost = \"\"\nport = 1883\nusername = \"\"\npassword = \"\"\npassword_env = \"\"\ntopic_prefix = \"wtg\"\nnode_id = \"\"\n\n[mqtt.home_assistant]\ndiscovery = false\ndiscovery_prefix = \"homeassistant\"\nretain_discovery = true\n"
}

// ---------------------------------------------------------------------------
// TOML string escaping.
// ---------------------------------------------------------------------------
/// How one character is written inside a TOML basic string.
pub open spec fn toml_escape_char(c: char) -> Seq<char> {
    if c == '\\' {
        seq!['\\', '\\']
    } else if c == '"' {
        seq!['\\', '"']
    } else if c == '\n' {
        seq!['\\', 'n']
    } else if c == '\r' {
        seq!['\\', 'r']
    } else if c == '\t' {
        seq!['\\', 't']
    } else {
        seq![c]
    }
}

/// A text escaped for a TOML basic string.
pub open spec fn toml_escape_spec(s: Seq<char>) -> Seq<char>
    decreases s.len(),
{
    if s.len() == 0 {
        Seq::empty()
    } else {
        toml_escape_spec(s.drop_last()) + toml_escape_char(s.last())
    }
}

/// Appends a text escaped for a TOML basic string.
pub fn push_toml_escaped(out: &mut String, s: &str)
    ensures
        final(out)@ == old(out)@ + toml_escape_spec(s@),
{
    let cs = chars_of(s);
    let ghost start = out@;
    let mut i: usize = 0;
    while i < cs.len()
        invariant
            cs@ == s@,
            i <= cs.len(),
            out@ == start + toml_escape_spec(s@.take(i as int)),
        decreases cs.len() - i,
    {
        assert(s@.take(i + 1).drop_last() =~= s@.take(i as int));
        let c = cs[i];
        let ghost before = out@;
        if c == '\\' {
            push_char(out, '\\');
            push_char(out, '\\');
        } else if c == '"' {
            push_char(out, '\\');
            push_char(out, '"');
        } else if c == '\n' {
            push_char(out, '\\');
            push_char(out, 'n');
        } else if c == '\r' {
            push_char(out, '\\');
            push_char(out, 'r');
        } else if c == '\t' {
            push_char(out, '\\');
            push_char(out, 't');
        } else {
            push_char(out, c);
        }
        assert(out@ =~= before + toml_escape_char(c));
        i = i + 1;
    }
    assert(s@.take(cs.len() as int) =~= s@);
}

/// Escapes backslashes, double quotes, newlines, carriage returns and tabs
/// for a TOML basic string.
pub fn toml_escape(s: &str) -> (r: String)
    ensures
        r@ == toml_escape_spec(s@),
{
    let mut out = String::new();
    push_toml_escaped(&mut out, s);
    assert(out@ =~= toml_escape_spec(s@));
    out
}

// ---------------------------------------------------------------------------
// The saved MQTT configuration.
// ---------------------------------------------------------------------------
/// The MQTT settings that `--mqtt-save-config` writes.
#[derive(Clone)]
pub struct SavedMqttConfig {
    pub host: String,
    pub port: u16,
    pub username: String,
    pub password: Option<String>,
    pub password_env: Option<String>,
    pub topic_prefix: String,
    pub node_id: String,
    pub ha_discovery: bool,
    pub ha_discovery_prefix: String,
    pub ha_retain_discovery: bool,
}

/// `true` or `false`.
pub open spec fn bool_text(b: bool) -> Seq<char> {
    if b {
        "true"@
    } else {
        "false"@
    }
}

/// `true` or `false`.
pub fn bool_str(b: bool) -> (r: &'static str)
    ensures
        r@ == bool_text(b),
{
    if b {
        "true"
    } else {
        "false"
    }
}

/// The quoted TOML value of a text.
pub open spec fn toml_quoted(s: Seq<char>) -> Seq<char> {
    "\""@ + toml_escape_spec(s) + "\""@
}

/// The TOML text written for a saved configuration.
pub open spec fn saved_config_text(c: SavedMqttConfig) -> Seq<char> {
    "# WTG CLI configuration.\n# WTG never auto-loads this file. Use --config <path> explicitly.\n# Saved by wtg --mqtt-save-config\n\n[mqtt]\nenabled = true\nhost = "@
        + toml_quoted(c.host@) + "\nport = "@ + dec(c.port as nat) + "\nusername = "@
        + toml_quoted(c.username@) + "\npassword = "@ + match c.password {
        Some(p) => toml_quoted(p@),
        None => "\"\""@,
    } + "\npassword_env = "@ + match c.password_env {
        Some(p) => toml_quoted(p@),
        None => "\"\""@,
    } + "\ntopic_prefix = "@ + toml_quoted(c.topic_prefix@) + "\nnode_id = "@ + toml_quoted(
        c.node_id@,
    ) + "\n\n[mqtt.home_assistant]\ndiscovery = "@ + bool_text(c.ha_discovery)
        + "\ndiscovery_prefix = "@ + toml_quoted(c.ha_discovery_prefix@) + "\nretain_discovery = "@
        + bool_text(c.ha_retain_discovery) + "\n"@
}

fn push_toml_quoted(out: &mut String, s: &str)
    ensures
        final(out)@ == old(out)@ + toml_quoted(s@),
{
    let ghost start = out@;
    push_str(out, "\"");
    push_toml_escaped(out, s);
    push_str(out, "\"");
    assert(out@ =~= start + toml_quoted(s@));
}

/// The redacted text of an optional password: the value never appears.
pub open spec fn redacted_password_text(p: Option<String>) -> Seq<char> {
    match p {
        Some(_) => "Some(\"[REDACTED]\")"@,
        None => "None"@,
    }
}

/// The text of an optional value.
pub open spec fn opt_json_text(p: Option<String>) -> Seq<char> {
    match p {
        Some(v) => "Some("@ + json_string_spec(v@) + ")"@,
        None => "None"@,
    }
}

/// The readable rendering of a saved configuration.
pub open spec fn saved_config_redacted_spec(c: SavedMqttConfig) -> Seq<char> {
    "SavedMqttConfig { host: "@ + json_string_spec(c.host@) + ", port: "@ + dec(c.port as nat)
        + ", username: "@ + json_string_spec(c.username@) + ", password: "@
        + redacted_password_text(c.password) + ", password_env: "@ + opt_json_text(c.password_env)
        + ", topic_prefix: "@ + json_string_spec(c.topic_prefix@) + ", node_id: "@
        + json_string_spec(c.node_id@) + ", ha_discovery: "@ + bool_text(c.ha_discovery)
        + ", ha_discovery_prefix: "@ + json_string_spec(c.ha_discovery_prefix@)
        + ", ha_retain_discovery: "@ + bool_text(c.ha_retain_discovery) + " }"@
}

impl SavedMqttConfig {
    /// The TOML file contents for this configuration, with `enabled = true`.
    pub fn to_toml(&self) -> (r: String)
        ensures
            r@ == saved_config_text(*self),
    {
        let mut t = owned(
            "# WTG CLI configuration.\n# WTG never auto-loads this file. Use --config <path> explicitly.\n# Saved by wtg --mqtt-save-config\n\n[mqtt]\nenabled = true\nhost = ",
        );
        push_toml_quoted(&mut t, self.host.as_str());
        push_str(&mut t, "\nport = ");
        push_dec(&mut t, self.port as u64);
        push_str(&mut t, "\nusername = ");
        push_toml_quoted(&mut t, self.username.as_str());
        push_str(&mut t, "\npassword = ");
        match &self.password {
            Some(p) => push_toml_quoted(&mut t, p.as_str()),
            None => push_str(&mut t, "\"\""),
        }
        push_str(&mut t, "\npassword_env = ");
        match &self.password_env {
            Some(p) => push_toml_quoted(&mut t, p.as_str()),
            None => push_str(&mut t, "\"\""),
        }
        push_str(&mut t, "\ntopic_prefix = ");
        push_toml_quoted(&mut t, self.topic_prefix.as_str());
        push_str(&mut t, "\nnode_id = ");
        push_toml_quoted(&mut t, self.node_id.as_str());
        push_str(&mut t, "\n\n[mqtt.home_assistant]\ndiscovery = ");
        push_str(&mut t, bool_str(self.ha_discovery));
        push_str(&mut t, "\ndiscovery_prefix = ");
        push_toml_quoted(&mut t, self.ha_discovery_prefix.as_str());
        push_str(&mut t, "\nretain_discovery = ");
        push_str(&mut t, bool_str(self.ha_retain_discovery));
        push_str(&mut t, "\n");
        t
    }

    /// A readable rendering of the configuration in which the password is
    /// replaced by `[REDACTED]`.
    pub fn redacted_text(&self) -> (r: String)
        ensures
            r@ == saved_config_redacted_spec(*self),
    {
        let mut t = owned("SavedMqttConfig { host: ");
        push_json_string(&mut t, self.host.as_str());
        push_str(&mut t, ", port: ");
        push_dec(&mut t, self.port as u64);
        push_str(&mut t, ", username: ");
        push_json_string(&mut t, self.username.as_str());
        push_str(&mut t, ", password: ");
        let ghost before_password = t@;
        match &self.password {
            Some(_) => push_str(&mut t, "Some(\"[REDACTED]\")"),
            None => push_str(&mut t, "None"),
        }
        assert(t@ == before_password + redacted_password_text(self.password));
        push_str(&mut t, ", password_env: ");
        let ghost before_env = t@;
        match &self.password_env {
            Some(p) => {
                push_str(&mut t, "Some(");
                push_json_string(&mut t, p.as_str());
                push_str(&mut t, ")");
                assert(t@ =~= before_env + opt_json_text(self.password_env));
            },
            None => push_str(&mut t, "None"),
        }
        assert(t@ == before_env + opt_json_text(self.password_env));
        push_str(&mut t, ", topic_prefix: ");
        push_json_string(&mut t, self.topic_prefix.as_str());
        push_str(&mut t, ", node_id: ");
        push_json_string(&mut t, self.node_id.as_str());
        push_str(&mut t, ", ha_discovery: ");
        push_str(&mut t, bool_str(self.ha_discovery));
        push_str(&mut t, ", ha_discovery_prefix: ");
        push_json_string(&mut t, self.ha_discovery_prefix.as_str());
        push_str(&mut t, ", ha_retain_discovery: ");
        push_str(&mut t, bool_str(self.ha_retain_discovery));
        push_str(&mut t, " }");
        t
    }
}

/// Two saved configurations that differ at most in the password value
/// render the same redacted text.
pub proof fn lemma_redacted_text_ignores_password(a: SavedMqttConfig, b: SavedMqttConfig)
    requires
        a.host@ == b.host@,
        a.port == b.port,
        a.username@ == b.username@,
        a.password is Some == b.password is Some,
        ov(a.password_env) == ov(b.password_env),
        a.topic_prefix@ == b.topic_prefix@,
        a.node_id@ == b.node_id@,
        a.ha_discovery == b.ha_discovery,
        a.ha_discovery_prefix@ == b.ha_discovery_prefix@,
        a.ha_retain_discovery == b.ha_retain_discovery,
    ensures
        saved_config_redacted_spec(a) == saved_config_redacted_spec(b),
{
}

/// The message when a file exists and overwriting was not asked for.
pub fn refuse_overwrite_message(path_display: &str) -> (r: String)
    ensures
        r@ == path_display@ + " already exists; refusing to overwrite it. Use --force-config to overwrite."@,
{
    let mut t = owned(path_display);
    push_str(&mut t, " already exists; refusing to overwrite it. Use --force-config to overwrite.");
    t
}

} // verus!
