//! The MQTT settings form of the desktop window: its defaults, how a config
//! file fills it, the command line it previews, and the short texts it shows.
use vstd::prelude::*;

use crate::config::{default_config_file_name, default_config_file_name_spec, ov, MqttConfig, WtgConfig};
use crate::mqtt::{
    default_ha_discovery_prefix, default_ha_discovery_prefix_spec, default_topic_prefix,
    default_topic_prefix_spec, DEFAULT_MQTT_PORT,
};
use crate::mqtt::MqttOptions;
use crate::mqtt_settings::{mqtt_options_from_values, options_hold, options_values_spec};
use crate::nvml::probe_context::GpuProbeContext;
use crate::nvml::{mib, opt_text, GpuSnapshot};
use crate::stats::bytes_to_mib;
use crate::text::{
    cat, chars_of, dec, dec_string, is_blank, opt_string_view, opt_view, owned, push_char, push_dec,
    push_str, str_eq, str_is_blank, trim, trim_str, trim_to_option_spec,
};

verus! {

// ---------------------------------------------------------------------------
// Defaults and loaded settings.
// ---------------------------------------------------------------------------
/// The config path the form starts with.
pub fn default_config_path() -> (r: String)
    ensures
        r@ == default_config_file_name_spec(),
{
    owned(default_config_file_name())
}

/// The port the form starts with, as text.
pub open spec fn default_port_spec() -> Seq<char> {
    dec(DEFAULT_MQTT_PORT as nat)
}

/// The port the form starts with, as text.
pub fn default_port() -> (r: String)
    ensures
        r@ == default_port_spec(),
{
    dec_string(DEFAULT_MQTT_PORT as u64)
}

/// The settings read from a config file, as the form shows them.
pub struct LoadedMqttSettings {
    pub mqtt_enabled: bool,
    pub host: String,
    pub port: String,
    pub username: String,
    pub password: String,
    pub password_env: String,
    pub topic_prefix: String,
    pub node_id: String,
    pub ha_discovery_enabled: bool,
    pub ha_discovery_prefix: String,
    pub retain_discovery: bool,
}

/// Loaded settings as values.
pub struct LoadedModel {
    pub mqtt_enabled: bool,
    pub host: Seq<char>,
    pub port: Seq<char>,
    pub username: Seq<char>,
    pub password: Seq<char>,
    pub password_env: Seq<char>,
    pub topic_prefix: Seq<char>,
    pub node_id: Seq<char>,
    pub ha_discovery_enabled: bool,
    pub ha_discovery_prefix: Seq<char>,
    pub retain_discovery: bool,
}

impl View for LoadedMqttSettings {
    type V = LoadedModel;

    open spec fn view(&self) -> LoadedModel {
        LoadedModel {
            mqtt_enabled: self.mqtt_enabled,
            host: self.host@,
            port: self.port@,
            username: self.username@,
            password: self.password@,
            password_env: self.password_env@,
            topic_prefix: self.topic_prefix@,
            node_id: self.node_id@,
            ha_discovery_enabled: self.ha_discovery_enabled,
            ha_discovery_prefix: self.ha_discovery_prefix@,
            retain_discovery: self.retain_discovery,
        }
    }
}

/// A trimmed value that is present, or the default.
pub open spec fn value_or(v: Option<String>, default: Seq<char>) -> Seq<char> {
    match trim_to_option_spec(ov(v)) {
        Some(s) => s,
        None => default,
    }
}

/// The settings of a config file: each value present, trimmed, else the
/// form's default; without an `[mqtt]` table, every default.
pub open spec fn settings_spec(config: WtgConfig) -> LoadedModel {
    match config.mqtt {
        None => LoadedModel {
            mqtt_enabled: false,
            host: Seq::empty(),
            port: default_port_spec(),
            username: Seq::empty(),
            password: Seq::empty(),
            password_env: Seq::empty(),
            topic_prefix: default_topic_prefix_spec(),
            node_id: Seq::empty(),
            ha_discovery_enabled: false,
            ha_discovery_prefix: default_ha_discovery_prefix_spec(),
            retain_discovery: false,
        },
        Some(m) => LoadedModel {
            mqtt_enabled: m.enabled == Some(true),
            host: value_or(m.host, Seq::empty()),
            port: dec(
                match m.port {
                    Some(p) => p,
                    None => DEFAULT_MQTT_PORT,
                } as nat,
            ),
            username: value_or(m.username, Seq::empty()),
            password: value_or(m.password, Seq::empty()),
            password_env: value_or(m.password_env, Seq::empty()),
            topic_prefix: value_or(m.topic_prefix, default_topic_prefix_spec()),
            node_id: value_or(m.node_id, Seq::empty()),
            ha_discovery_enabled: match m.home_assistant {
                Some(h) => h.discovery == Some(true),
                None => false,
            },
            ha_discovery_prefix: match m.home_assistant {
                Some(h) => value_or(h.discovery_prefix, default_ha_discovery_prefix_spec()),
                None => default_ha_discovery_prefix_spec(),
            },
            retain_discovery: match m.home_assistant {
                Some(h) => h.retain_discovery == Some(true),
                None => false,
            },
        },
    }
}

fn owned_or(v: Option<&str>, default: &str) -> (r: String)
    ensures
        r@ == match opt_view(v) {
            Some(s) => s,
            None => default@,
        },
{
    match v {
        Some(s) => owned(s),
        None => owned(default),
    }
}

fn settings_from_mqtt(m: &MqttConfig) -> (s: LoadedMqttSettings)
    ensures
        s@ == settings_spec(WtgConfig { mqtt: Some(*m) }),
{
    let empty = "";
    proof {
        reveal_strlit("");
        assert(empty@ =~= Seq::<char>::empty());
    }
    let (ha_on, ha_prefix, retain) = match &m.home_assistant {
        Some(h) => (
            match h.discovery {
                Some(b) => b,
                None => false,
            },
            owned_or(h.discovery_prefix(), default_ha_discovery_prefix()),
            match h.retain_discovery {
                Some(b) => b,
                None => false,
            },
        ),
        None => (false, owned(default_ha_discovery_prefix()), false),
    };
    let port = match m.port {
        Some(p) => p,
        None => DEFAULT_MQTT_PORT,
    };
    LoadedMqttSettings {
        mqtt_enabled: m.enabled(),
        host: owned_or(m.host(), empty),
        port: dec_string(port as u64),
        username: owned_or(m.username(), empty),
        password: owned_or(m.password(), empty),
        password_env: owned_or(m.password_env(), empty),
        topic_prefix: owned_or(m.topic_prefix(), default_topic_prefix()),
        node_id: owned_or(m.node_id(), empty),
        ha_discovery_enabled: ha_on,
        ha_discovery_prefix: ha_prefix,
        retain_discovery: retain,
    }
}

/// The settings of a config file, as the form shows them.
pub fn mqtt_settings_from_config(config: &WtgConfig) -> (s: LoadedMqttSettings)
    ensures
        s@ == settings_spec(*config),
{
    match &config.mqtt {
        Some(m) => settings_from_mqtt(m),
        None => LoadedMqttSettings {
            mqtt_enabled: false,
            host: String::new(),
            port: default_port(),
            username: String::new(),
            password: String::new(),
            password_env: String::new(),
            topic_prefix: owned(default_topic_prefix()),
            node_id: String::new(),
            ha_discovery_enabled: false,
            ha_discovery_prefix: owned(default_ha_discovery_prefix()),
            retain_discovery: false,
        },
    }
}

// ---------------------------------------------------------------------------
// The form.
// ---------------------------------------------------------------------------
/// The fields of the MQTT settings form.
pub struct MqttFormState {
    pub config_path: String,
    pub host: String,
    pub port: String,
    pub username: String,
    pub password: String,
    pub password_env: String,
    pub topic_prefix: String,
    pub node_id: String,
    pub ha_discovery_prefix: String,
    pub ha_discovery_enabled: bool,
    pub retain_discovery: bool,
    pub use_password_env: bool,
}

/// The form as values.
pub struct FormModel {
    pub config_path: Seq<char>,
    pub host: Seq<char>,
    pub port: Seq<char>,
    pub username: Seq<char>,
    pub password: Seq<char>,
    pub password_env: Seq<char>,
    pub topic_prefix: Seq<char>,
    pub node_id: Seq<char>,
    pub ha_discovery_prefix: Seq<char>,
    pub ha_discovery_enabled: bool,
    pub retain_discovery: bool,
    pub use_password_env: bool,
}

impl View for MqttFormState {
    type V = FormModel;

    open spec fn view(&self) -> FormModel {
        FormModel {
            config_path: self.config_path@,
            host: self.host@,
            port: self.port@,
            username: self.username@,
            password: self.password@,
            password_env: self.password_env@,
            topic_prefix: self.topic_prefix@,
            node_id: self.node_id@,
            ha_discovery_prefix: self.ha_discovery_prefix@,
            ha_discovery_enabled: self.ha_discovery_enabled,
            retain_discovery: self.retain_discovery,
            use_password_env: self.use_password_env,
        }
    }
}

/// The form before anything is loaded.
pub open spec fn default_form() -> FormModel {
    FormModel {
        config_path: default_config_file_name_spec(),
        host: Seq::empty(),
        port: default_port_spec(),
        username: Seq::empty(),
        password: Seq::empty(),
        password_env: Seq::empty(),
        topic_prefix: default_topic_prefix_spec(),
        node_id: Seq::empty(),
        ha_discovery_prefix: default_ha_discovery_prefix_spec(),
        ha_discovery_enabled: false,
        retain_discovery: false,
        use_password_env: false,
    }
}

impl Default for MqttFormState {
    /// The defaults: the default config path, port and prefixes, nothing
    /// else.
    fn default() -> (r: Self)
        ensures
            r@ == default_form(),
    {
        MqttFormState {
            config_path: default_config_path(),
            host: String::new(),
            port: default_port(),
            username: String::new(),
            password: String::new(),
            password_env: String::new(),
            topic_prefix: owned(default_topic_prefix()),
            node_id: String::new(),
            ha_discovery_prefix: owned(default_ha_discovery_prefix()),
            ha_discovery_enabled: false,
            retain_discovery: false,
            use_password_env: false,
        }
    }
}

/// The form after loading settings: every loaded value replaces the form's,
/// the config path stays, and the environment variable is used when it is
/// given and no password is.
pub open spec fn apply_loaded_spec(f: FormModel, s: LoadedModel) -> FormModel {
    FormModel {
        config_path: f.config_path,
        host: s.host,
        port: s.port,
        username: s.username,
        password: s.password,
        password_env: s.password_env,
        topic_prefix: s.topic_prefix,
        node_id: s.node_id,
        ha_discovery_prefix: s.ha_discovery_prefix,
        ha_discovery_enabled: s.ha_discovery_enabled,
        retain_discovery: s.retain_discovery,
        use_password_env: !is_blank(s.password_env) && is_blank(s.password),
    }
}

/// A flag and its value, quoted for a shell; nothing when the value is
/// blank.
pub open spec fn flag_value_parts(flag: Seq<char>, value: Seq<char>) -> Seq<Seq<char>> {
    if is_blank(value) {
        seq![]
    } else {
        seq![flag, shell_quote_spec(value)]
    }
}

/// Whether a character needs no quoting in the preview.
pub open spec fn shell_safe(c: char) -> bool {
    ('a' <= c <= 'z') || ('A' <= c <= 'Z') || ('0' <= c <= '9') || c == '-' || c == '_' || c
        == '.' || c == '/' || c == ':' || c == '\\'
}

/// A text with every double quote preceded by a backslash.
pub open spec fn escape_quotes(s: Seq<char>) -> Seq<char>
    decreases s.len(),
{
    if s.len() == 0 {
        Seq::empty()
    } else {
        escape_quotes(s.drop_last()) + if s.last() == '"' {
            seq!['\\', '"']
        } else {
            seq![s.last()]
        }
    }
}

/// A value as the preview writes it: as it is when every character is safe,
/// else in double quotes with its quotes escaped.
pub open spec fn shell_quote_spec(s: Seq<char>) -> Seq<char> {
    if forall|i: int| 0 <= i < s.len() ==> shell_safe(#[trigger] s[i]) {
        s
    } else {
        seq!['"'] + escape_quotes(s) + seq!['"']
    }
}

/// A value as the preview writes it.
pub fn shell_quote(value: &str) -> (r: String)
    ensures
        r@ == shell_quote_spec(value@),
{
    let cs = chars_of(value);
    let mut safe = true;
    let mut i: usize = 0;
    while i < cs.len()
        invariant
            cs@ == value@,
            i <= cs.len(),
            safe == forall|k: int| 0 <= k < i ==> shell_safe(#[trigger] value@[k]),
        decreases cs.len() - i,
    {
        let c = cs[i];
        let ok = ('a' <= c && c <= 'z') || ('A' <= c && c <= 'Z') || ('0' <= c && c <= '9') || c
            == '-' || c == '_' || c == '.' || c == '/' || c == ':' || c == '\\';
        safe = safe && ok;
        i = i + 1;
    }
    if safe {
        return owned(value);
    }
    let mut r = String::new();
    push_char(&mut r, '"');
    let ghost start = r@;
    let mut j: usize = 0;
    while j < cs.len()
        invariant
            cs@ == value@,
            j <= cs.len(),
            r@ == start + escape_quotes(value@.take(j as int)),
        decreases cs.len() - j,
    {
        assert(value@.take(j + 1).drop_last() =~= value@.take(j as int));
        let c = cs[j];
        if c == '"' {
            push_char(&mut r, '\\');
        }
        push_char(&mut r, c);
        j = j + 1;
    }
    assert(value@.take(cs.len() as int) =~= value@);
    push_char(&mut r, '"');
    assert(r@ =~= shell_quote_spec(value@));
    r
}

/// Adds a flag and its quoted value, unless the value is blank.
pub fn push_cli_flag_value(parts: &mut Vec<String>, flag: &str, value: &str)
    ensures
        crate::sink::string_views(final(parts)@) == crate::sink::string_views(old(parts)@)
            + flag_value_parts(flag@, value@),
{
    let ghost before = crate::sink::string_views(parts@);
    if str_is_blank(value) {
        assert(crate::sink::string_views(parts@) =~= before + flag_value_parts(flag@, value@));
        return ;
    }
    parts.push(owned(flag));
    parts.push(shell_quote(value));
    assert(crate::sink::string_views(parts@) =~= before + flag_value_parts(flag@, value@));
}

/// Words joined by single spaces.
pub open spec fn join_spaces(parts: Seq<Seq<char>>) -> Seq<char>
    decreases parts.len(),
{
    if parts.len() == 0 {
        Seq::empty()
    } else if parts.len() == 1 {
        parts[0]
    } else {
        join_spaces(parts.drop_last()) + " "@ + parts.last()
    }
}

/// The words of the command line that the form previews.
pub open spec fn preview_parts(f: FormModel) -> Seq<Seq<char>> {
    seq!["wtg.exe"@, "--watch"@, "--sink"@, "mqtt"@] + flag_value_parts("--mqtt-host"@, f.host)
        + port_section(f.port) + prefix_section(f.topic_prefix) + flag_value_parts(
        "--mqtt-node-id"@,
        f.node_id,
    ) + auth_section(f) + ha_section(f)
}

fn join_with_spaces(parts: &Vec<String>) -> (r: String)
    ensures
        r@ == join_spaces(crate::sink::string_views(parts@)),
{
    let ghost all = crate::sink::string_views(parts@);
    let mut r = String::new();
    let mut i: usize = 0;
    while i < parts.len()
        invariant
            all == crate::sink::string_views(parts@),
            i <= parts.len(),
            r@ == join_spaces(all.take(i as int)),
        decreases parts.len() - i,
    {
        assert(all.take(i + 1).drop_last() =~= all.take(i as int));
        if i > 0 {
            push_str(&mut r, " ");
        }
        push_str(&mut r, parts[i].as_str());
        proof {
            if i == 0 {
                assert(all.take(1).len() == 1);
                assert(r@ =~= all.take(1)[0]);
            }
        }
        i = i + 1;
    }
    assert(all.take(parts.len() as int) =~= all);
    r
}

fn push_word(parts: &mut Vec<String>, word: &str)
    ensures
        crate::sink::string_views(final(parts)@) == crate::sink::string_views(old(parts)@).push(
            word@,
        ),
{
    let ghost before = crate::sink::string_views(parts@);
    parts.push(owned(word));
    assert(crate::sink::string_views(parts@) =~= before.push(word@));
}

impl MqttFormState {
    /// Fills the form with loaded settings; the config path stays.
    pub fn apply_loaded_settings(&mut self, settings: LoadedMqttSettings)
        ensures
            final(self)@ == apply_loaded_spec(old(self)@, settings@),
    {
        let use_env = !str_is_blank(settings.password_env.as_str()) && str_is_blank(
            settings.password.as_str(),
        );
        self.host = settings.host;
        self.port = settings.port;
        self.username = settings.username;
        self.password = settings.password;
        self.password_env = settings.password_env;
        self.topic_prefix = settings.topic_prefix;
        self.node_id = settings.node_id;
        self.ha_discovery_enabled = settings.ha_discovery_enabled;
        self.ha_discovery_prefix = settings.ha_discovery_prefix;
        self.retain_discovery = settings.retain_discovery;
        self.use_password_env = use_env;
    }

    /// The command line that publishes with the form's settings: the
    /// defaults are left out, and so is every blank value.
    pub fn cli_preview(&self) -> (r: String)
        ensures
            r@ == join_spaces(preview_parts(self@)),
    {
        let ghost f = self@;
        let mut parts: Vec<String> = Vec::new();
        push_word(&mut parts, "wtg.exe");
        push_word(&mut parts, "--watch");
        push_word(&mut parts, "--sink");
        push_word(&mut parts, "mqtt");
        assert(crate::sink::string_views(parts@) =~= seq!["wtg.exe"@, "--watch"@, "--sink"@, "mqtt"@]);
        push_cli_flag_value(&mut parts, "--mqtt-host", self.host.as_str());
        push_port_section(&mut parts, self.port.as_str());
        push_prefix_section(&mut parts, self.topic_prefix.as_str());
        push_cli_flag_value(&mut parts, "--mqtt-node-id", self.node_id.as_str());
        push_auth_section(&mut parts, self);
        push_ha_section(&mut parts, self);
        assert(crate::sink::string_views(parts@) =~= preview_parts(f));
        join_with_spaces(&parts)
    }
}

/// The port words of the preview: none for the default port.
pub open spec fn port_section(port: Seq<char>) -> Seq<Seq<char>> {
    if trim(port) != default_port_spec() {
        flag_value_parts("--mqtt-port"@, port)
    } else {
        seq![]
    }
}

/// The topic prefix words of the preview: none for the default prefix.
pub open spec fn prefix_section(prefix: Seq<char>) -> Seq<Seq<char>> {
    if trim(prefix) != default_topic_prefix_spec() {
        flag_value_parts("--mqtt-topic-prefix"@, prefix)
    } else {
        seq![]
    }
}

/// The credential words of the preview: the username, then the password or
/// its variable; none without a username.
pub open spec fn auth_section(f: FormModel) -> Seq<Seq<char>> {
    if !is_blank(f.username) {
        flag_value_parts("--mqtt-username"@, f.username) + if f.use_password_env {
            flag_value_parts("--mqtt-password-env"@, f.password_env)
        } else {
            flag_value_parts("--mqtt-password"@, f.password)
        }
    } else {
        seq![]
    }
}

/// The discovery words of the preview: none without discovery.
pub open spec fn ha_section(f: FormModel) -> Seq<Seq<char>> {
    if f.ha_discovery_enabled {
        seq!["--mqtt-ha-discovery"@] + (if trim(f.ha_discovery_prefix)
            != default_ha_discovery_prefix_spec() {
            flag_value_parts("--mqtt-ha-prefix"@, f.ha_discovery_prefix)
        } else {
            seq![]
        }) + if f.retain_discovery {
            seq!["--mqtt-retain-discovery"@]
        } else {
            seq![]
        }
    } else {
        seq![]
    }
}

fn push_port_section(parts: &mut Vec<String>, port: &str)
    ensures
        crate::sink::string_views(final(parts)@) == crate::sink::string_views(old(parts)@)
            + port_section(port@),
{
    let dp = default_port();
    if !str_eq(trim_str(port), dp.as_str()) {
        push_cli_flag_value(parts, "--mqtt-port", port);
    } else {
        assert(crate::sink::string_views(parts@) =~= crate::sink::string_views(parts@) + port_section(port@));
    }
}

fn push_prefix_section(parts: &mut Vec<String>, prefix: &str)
    ensures
        crate::sink::string_views(final(parts)@) == crate::sink::string_views(old(parts)@)
            + prefix_section(prefix@),
{
    if !str_eq(trim_str(prefix), default_topic_prefix()) {
        push_cli_flag_value(parts, "--mqtt-topic-prefix", prefix);
    } else {
        assert(crate::sink::string_views(parts@) =~= crate::sink::string_views(parts@) + prefix_section(prefix@));
    }
}

fn push_auth_section(parts: &mut Vec<String>, f: &MqttFormState)
    ensures
        crate::sink::string_views(final(parts)@) == crate::sink::string_views(old(parts)@)
            + auth_section(f@),
{
    let ghost before = crate::sink::string_views(parts@);
    if !str_is_blank(f.username.as_str()) {
        push_cli_flag_value(parts, "--mqtt-username", f.username.as_str());
        if f.use_password_env {
            push_cli_flag_value(parts, "--mqtt-password-env", f.password_env.as_str());
        } else {
            push_cli_flag_value(parts, "--mqtt-password", f.password.as_str());
        }
    }
    assert(crate::sink::string_views(parts@) =~= before + auth_section(f@));
}

fn push_ha_section(parts: &mut Vec<String>, f: &MqttFormState)
    ensures
        crate::sink::string_views(final(parts)@) == crate::sink::string_views(old(parts)@)
            + ha_section(f@),
{
    let ghost before = crate::sink::string_views(parts@);
    if f.ha_discovery_enabled {
        push_word(parts, "--mqtt-ha-discovery");
        if !str_eq(trim_str(f.ha_discovery_prefix.as_str()), default_ha_discovery_prefix()) {
            push_cli_flag_value(parts, "--mqtt-ha-prefix", f.ha_discovery_prefix.as_str());
        }
        if f.retain_discovery {
            push_word(parts, "--mqtt-retain-discovery");
        }
    }
    assert(crate::sink::string_views(parts@) =~= before + ha_section(f@));
}

/// The config path the form uses: the one typed, trimmed, or the default.
pub open spec fn normalized_config_path_spec(config_path: Seq<char>) -> Seq<char> {
    if trim(config_path).len() == 0 {
        default_config_file_name_spec()
    } else {
        trim(config_path)
    }
}

/// The config path the form uses.
pub fn normalized_config_path(config_path: &str) -> (r: String)
    ensures
        r@ == normalized_config_path_spec(config_path@),
{
    let t = trim_str(config_path);
    if t.unicode_len() == 0 {
        default_config_path()
    } else {
        owned(t)
    }
}

/// The password the form saves, unless it uses the environment variable.
pub fn direct_password(form: &MqttFormState) -> (r: Option<&str>)
    ensures
        opt_view(r) == (if form.use_password_env {
            None
        } else {
            Some(form.password@)
        }),
{
    if form.use_password_env {
        None
    } else {
        Some(form.password.as_str())
    }
}

/// The environment variable the form saves, when it uses one.
pub fn env_password(form: &MqttFormState) -> (r: Option<&str>)
    ensures
        opt_view(r) == (if form.use_password_env {
            Some(form.password_env@)
        } else {
            None
        }),
{
    if form.use_password_env {
        Some(form.password_env.as_str())
    } else {
        None
    }
}

/// At most one of the password and its variable is saved.
pub proof fn lemma_one_password_source(form: MqttFormState)
    ensures
        (if form.use_password_env {
            None::<Seq<char>>
        } else {
            Some(form.password@)
        }) is None || (if form.use_password_env {
            Some(form.password_env@)
        } else {
            None::<Seq<char>>
        }) is None,
{
}

// ---------------------------------------------------------------------------
// Status and readings.
// ---------------------------------------------------------------------------
/// The kinds of status the form shows.
#[derive(Clone, Copy, Debug, PartialEq, Eq, Structural)]
pub enum MqttStatusKind {
    Idle,
    Success,
    Warning,
    Error,
    Running,
}

/// The label of a status kind.
pub open spec fn status_label_spec(kind: MqttStatusKind) -> Seq<char> {
    match kind {
        MqttStatusKind::Idle => "Idle"@,
        MqttStatusKind::Success => "Success"@,
        MqttStatusKind::Warning => "Warning"@,
        MqttStatusKind::Error => "Error"@,
        MqttStatusKind::Running => "Running"@,
    }
}

/// A status of the form: its kind and its message.
pub struct MqttStatus {
    pub kind: MqttStatusKind,
    pub message: String,
}

impl MqttStatus {
    /// A status of the given kind.
    pub fn new(kind: MqttStatusKind, message: String) -> (r: Self)
        ensures
            r.kind == kind,
            r.message@ == message@,
    {
        MqttStatus { kind, message }
    }

    /// An idle status.
    pub fn idle(message: String) -> (r: Self)
        ensures
            r.kind == MqttStatusKind::Idle,
            r.message@ == message@,
    {
        Self::new(MqttStatusKind::Idle, message)
    }

    /// The label of the status's kind.
    pub fn label(&self) -> (r: &'static str)
        ensures
            r@ == status_label_spec(self.kind),
    {
        match self.kind {
            MqttStatusKind::Idle => "Idle",
            MqttStatusKind::Success => "Success",
            MqttStatusKind::Warning => "Warning",
            MqttStatusKind::Error => "Error",
            MqttStatusKind::Running => "Running",
        }
    }

    /// The colours of the status banner, each as red, green and blue: the
    /// fill, the stroke and the text.
    pub fn colors(&self) -> (r: ((u8, u8, u8), (u8, u8, u8), (u8, u8, u8)))
        ensures
            r == status_colors_spec(self.kind),
    {
        match self.kind {
            MqttStatusKind::Idle => ((44, 58, 76), (101, 132, 171), (225, 233, 244)),
            MqttStatusKind::Success => ((29, 82, 51), (78, 181, 117), (231, 248, 237)),
            MqttStatusKind::Warning => ((94, 70, 22), (219, 174, 62), (255, 246, 214)),
            MqttStatusKind::Error => ((105, 34, 41), (218, 95, 109), (255, 234, 237)),
            MqttStatusKind::Running => ((26, 73, 97), (83, 171, 216), (230, 246, 255)),
        }
    }
}

/// The banner colours of each kind of status: fill, stroke and text.
pub open spec fn status_colors_spec(kind: MqttStatusKind) -> ((u8, u8, u8), (u8, u8, u8), (u8, u8, u8)) {
    match kind {
        MqttStatusKind::Idle => ((44, 58, 76), (101, 132, 171), (225, 233, 244)),
        MqttStatusKind::Success => ((29, 82, 51), (78, 181, 117), (231, 248, 237)),
        MqttStatusKind::Warning => ((94, 70, 22), (219, 174, 62), (255, 246, 214)),
        MqttStatusKind::Error => ((105, 34, 41), (218, 95, 109), (255, 234, 237)),
        MqttStatusKind::Running => ((26, 73, 97), (83, 171, 216), (230, 246, 255)),
    }
}

/// The password the form uses, unless it uses the environment variable.
pub open spec fn direct_password_spec(form: MqttFormState) -> Option<Seq<char>> {
    if form.use_password_env {
        None
    } else {
        Some(form.password@)
    }
}

/// The environment variable the form names, when it uses one.
pub open spec fn env_password_spec(form: MqttFormState) -> Option<Seq<char>> {
    if form.use_password_env {
        Some(form.password_env@)
    } else {
        None
    }
}

/// The outcome of building options from the form: MQTT active, the form's
/// values and password source, with the given discovery settings.
pub open spec fn form_options_spec(
    form: MqttFormState,
    ha_discovery: bool,
    ha_remove_discovery: bool,
    ha_prefix: Option<Seq<char>>,
    env_value: Option<Seq<char>>,
) -> Result<(Seq<char>, u16, Seq<char>, Seq<char>, Option<(Seq<char>, Seq<char>)>, bool, Option<Seq<char>>), Seq<char>> {
    options_values_spec(
        Some(form.host@),
        Some(form.port@),
        Some(form.topic_prefix@),
        Some(form.node_id@),
        Some(form.username@),
        direct_password_spec(form),
        env_password_spec(form),
        ha_discovery,
        ha_remove_discovery,
        ha_prefix,
        env_value,
    )
}

/// Whether a result of building options from the form matches its outcome.
pub open spec fn form_options_match(
    r: Result<MqttOptions, String>,
    outcome: Result<(Seq<char>, u16, Seq<char>, Seq<char>, Option<(Seq<char>, Seq<char>)>, bool, Option<Seq<char>>), Seq<char>>,
) -> bool {
    match outcome {
        Err(e) => r matches Err(m) && m@ == e,
        Ok(v) => r matches Ok(o) && options_hold(o, v.0, v.1, v.2, v.3, v.4, v.5, v.6),
    }
}

impl MqttFormState {
    /// The options the broker connection test uses: the form's values, with
    /// discovery (and its prefix) only when the form enables it.
    /// `env_value` is what the named environment variable holds.
    pub fn connection_test_options(&self, env_value: Option<String>) -> (r: Result<MqttOptions, String>)
        ensures
            form_options_match(
                r,
                form_options_spec(
                    *self,
                    self.ha_discovery_enabled,
                    false,
                    if self.ha_discovery_enabled {
                        Some(self.ha_discovery_prefix@)
                    } else {
                        None
                    },
                    opt_string_view(env_value),
                ),
            ),
    {
        let prefix = if self.ha_discovery_enabled {
            Some(self.ha_discovery_prefix.as_str())
        } else {
            None
        };
        match mqtt_options_from_values(
            true,
            Some(self.host.as_str()),
            Some(self.port.as_str()),
            Some(self.topic_prefix.as_str()),
            Some(self.node_id.as_str()),
            Some(self.username.as_str()),
            direct_password(self),
            env_password(self),
            self.ha_discovery_enabled,
            false,
            prefix,
            self.retain_discovery,
            env_value,
        ) {
            Ok(Some(o)) => Ok(o),
            Ok(None) => Err(owned("MQTT connection test requires active MQTT.")),
            Err(e) => Err(e),
        }
    }

    /// The options the retained discovery cleanup uses: the form's values,
    /// with discovery removal under the form's discovery prefix.
    pub fn cleanup_options(&self, env_value: Option<String>) -> (r: Result<MqttOptions, String>)
        ensures
            form_options_match(
                r,
                form_options_spec(*self, false, true, Some(self.ha_discovery_prefix@), opt_string_view(env_value)),
            ),
    {
        match mqtt_options_from_values(
            true,
            Some(self.host.as_str()),
            Some(self.port.as_str()),
            Some(self.topic_prefix.as_str()),
            Some(self.node_id.as_str()),
            Some(self.username.as_str()),
            direct_password(self),
            env_password(self),
            false,
            true,
            Some(self.ha_discovery_prefix.as_str()),
            self.retain_discovery,
            env_value,
        ) {
            Ok(Some(o)) => Ok(o),
            Ok(None) => Err(owned("MQTT cleanup requires active MQTT.")),
            Err(e) => Err(e),
        }
    }
}

/// The error status of a failed broker connection test.
pub fn connection_error_status(err: &str) -> (r: MqttStatus)
    ensures
        r.kind == MqttStatusKind::Error,
        r.message@ == "MQTT connection error: "@ + err@,
{
    MqttStatus::new(MqttStatusKind::Error, cat("MQTT connection error: ", err))
}

/// The error status of a failed discovery cleanup.
pub fn cleanup_error_status(err: &str) -> (r: MqttStatus)
    ensures
        r.kind == MqttStatusKind::Error,
        r.message@ == "MQTT cleanup error: "@ + err@,
{
    MqttStatus::new(MqttStatusKind::Error, cat("MQTT cleanup error: ", err))
}

/// A temperature as shown: `<t> C`, or `N/A`.
pub open spec fn temperature_text(temp_c: Option<u32>) -> Seq<char> {
    match temp_c {
        Some(t) => dec(t as nat) + " C"@,
        None => "N/A"@,
    }
}

/// A temperature as shown.
pub fn format_temperature(temp_c: Option<u32>) -> (r: String)
    ensures
        r@ == temperature_text(temp_c),
{
    match temp_c {
        Some(t) => {
            let mut r = dec_string(t as u64);
            push_str(&mut r, " C");
            r
        },
        None => owned("N/A"),
    }
}

/// Power and limit as shown, each already written in watts or absent.
pub open spec fn power_text(power_w: Option<Seq<char>>, limit_w: Option<Seq<char>>) -> Seq<char> {
    match (power_w, limit_w) {
        (Some(p), Some(l)) => p + " W / "@ + l + " W"@,
        (Some(p), None) => p + " W / N/A"@,
        (None, Some(l)) => "N/A / "@ + l + " W"@,
        (None, None) => "N/A"@,
    }
}

/// Power and limit as shown.
pub fn format_power(power_w: Option<String>, limit_w: Option<String>) -> (r: String)
    ensures
        r@ == power_text(opt_text(power_w), opt_text(limit_w)),
{
    let ghost pw = opt_text(power_w);
    let ghost lw = opt_text(limit_w);
    let mut r = String::new();
    match (power_w, limit_w) {
        (Some(p), Some(l)) => {
            push_str(&mut r, p.as_str());
            push_str(&mut r, " W / ");
            push_str(&mut r, l.as_str());
            push_str(&mut r, " W");
        },
        (Some(p), None) => {
            push_str(&mut r, p.as_str());
            push_str(&mut r, " W / N/A");
        },
        (None, Some(l)) => {
            push_str(&mut r, "N/A / ");
            push_str(&mut r, l.as_str());
            push_str(&mut r, " W");
        },
        (None, None) => {
            push_str(&mut r, "N/A");
        },
    }
    assert(r@ =~= power_text(pw, lw));
    r
}

/// How long ago the last refresh was, from the whole seconds elapsed since
/// (`None` before the first refresh).
pub open spec fn refresh_age_text(elapsed_secs: Option<u64>) -> Seq<char> {
    match elapsed_secs {
        None => "N/A"@,
        Some(s) => if s == 0 {
            "just now"@
        } else if s < 60 {
            dec(s as nat) + "s ago"@
        } else {
            dec((s / 60) as nat) + "m "@ + dec((s % 60) as nat) + "s ago"@
        },
    }
}

/// How long ago the last refresh was.
pub fn format_refresh_age(elapsed_secs: Option<u64>) -> (r: String)
    ensures
        r@ == refresh_age_text(elapsed_secs),
{
    match elapsed_secs {
        None => owned("N/A"),
        Some(s) => {
            if s == 0 {
                owned("just now")
            } else if s < 60 {
                let mut r = dec_string(s);
                push_str(&mut r, "s ago");
                r
            } else {
                let mut r = dec_string(s / 60);
                push_str(&mut r, "m ");
                push_dec(&mut r, s % 60);
                push_str(&mut r, "s ago");
                r
            }
        },
    }
}

/// The refresh line: the age and the Unix time of the refresh.
pub fn format_refresh_label(elapsed_secs: Option<u64>, unix_label: &str) -> (r: String)
    ensures
        r@ == "Refreshed: "@ + refresh_age_text(elapsed_secs) + " | unix "@ + unix_label@,
{
    let mut r = owned("Refreshed: ");
    let age = format_refresh_age(elapsed_secs);
    push_str(&mut r, age.as_str());
    push_str(&mut r, " | unix ");
    push_str(&mut r, unix_label);
    r
}

/// What the desktop view shows of one GPU: the snapshot's values, memory in
/// MiB, the probe context, and power and limit in watts as the caller wrote
/// them from the snapshot's milliwatts.
pub struct DeviceView {
    pub index: u32,
    pub name: String,
    pub uuid: String,
    pub driver_version: String,
    pub cuda_driver_version: String,
    pub compute_mode: String,
    pub perf_state: String,
    pub pci_bus_id: String,
    pub gpu_util_pct: u32,
    pub mem_util_pct: u32,
    pub vram_used_mib: u64,
    pub vram_total_mib: u64,
    pub temp_c: Option<u32>,
    pub power_w: Option<String>,
    pub power_limit_w: Option<String>,
}

impl DeviceView {
    /// The view of a snapshot with its probe context.
    pub fn from_snapshot(
        snapshot: &GpuSnapshot,
        context: GpuProbeContext,
        power_w: Option<String>,
        power_limit_w: Option<String>,
    ) -> (r: Self)
        requires
            power_w is Some == snapshot.power_mw is Some,
            power_limit_w is Some == snapshot.power_limit_mw is Some,
        ensures
            r.index == snapshot.index,
            r.name@ == snapshot.name@,
            r.uuid@ == snapshot.uuid@,
            r.driver_version == context.driver_version,
            r.cuda_driver_version == context.cuda_driver_version,
            r.compute_mode == context.compute_mode,
            r.perf_state == context.perf_state,
            r.pci_bus_id == context.pci_bus_id,
            r.gpu_util_pct == snapshot.gpu_util_pct,
            r.mem_util_pct == snapshot.mem_util_pct,
            r.vram_used_mib == mib(snapshot.mem_used_bytes),
            r.vram_total_mib == mib(snapshot.mem_total_bytes),
            r.temp_c == snapshot.temp_c,
            r.power_w == power_w,
            r.power_limit_w == power_limit_w,
    {
        DeviceView {
            index: snapshot.index,
            name: snapshot.name.clone(),
            uuid: snapshot.uuid.clone(),
            driver_version: context.driver_version,
            cuda_driver_version: context.cuda_driver_version,
            compute_mode: context.compute_mode,
            perf_state: context.perf_state,
            pci_bus_id: context.pci_bus_id,
            gpu_util_pct: snapshot.gpu_util_pct,
            mem_util_pct: snapshot.mem_util_pct,
            vram_used_mib: bytes_to_mib(snapshot.mem_used_bytes),
            vram_total_mib: bytes_to_mib(snapshot.mem_total_bytes),
            temp_c: snapshot.temp_c,
            power_w,
            power_limit_w,
        }
    }
}

/// The device selected after a refresh that found `count` devices: the same
/// one while it still exists, else the last one (or the first when there is
/// none).
pub fn clamped_selection(selected: usize, count: usize) -> (r: usize)
    ensures
        r == (if selected < count {
            selected
        } else if count == 0 {
            0
        } else {
            (count - 1) as usize
        }),
{
    if selected >= count {
        if count == 0 {
            0
        } else {
            count - 1
        }
    } else {
        selected
    }
}

} // verus!
