//! MQTT sink options, topic naming and the retained Home Assistant cleanup.
use vstd::prelude::*;

use crate::json::{json_string_spec, push_json_string};
use crate::mqtt_packet::{build_connect_body_parts, connect_body_spec, connect_strings_fit, too_long_message};
use crate::text::{
    contains_char, dec, owned, push_dec, push_str, trim, trim_char,
    trim_char_str, trim_str,
};

verus! {

/// The default MQTT broker port.
pub const DEFAULT_MQTT_PORT: u16 = 1883;

/// The default topic prefix.
pub open spec fn default_topic_prefix_spec() -> Seq<char> {
    "wtg"@
}

/// The default topic prefix.
pub fn default_topic_prefix() -> (r: &'static str)
    ensures
        r@ == default_topic_prefix_spec(),
{
    "wtg"
}

/// The default Home Assistant discovery prefix.
pub open spec fn default_ha_discovery_prefix_spec() -> Seq<char> {
    "homeassistant"@
}

/// The default Home Assistant discovery prefix.
pub fn default_ha_discovery_prefix() -> (r: &'static str)
    ensures
        r@ == default_ha_discovery_prefix_spec(),
{
    "homeassistant"
}

// ---------------------------------------------------------------------------
// Topic validation.
// ---------------------------------------------------------------------------
/// Why a topic text is refused, if it is.
pub open spec fn topic_text_error(label: Seq<char>, value: Seq<char>) -> Option<Seq<char>> {
    if value.contains('\0') {
        Some(label + " must not contain NUL bytes."@)
    } else if value.contains('#') || value.contains('+') {
        Some(label + " must not contain MQTT wildcard characters."@)
    } else {
        None
    }
}

/// Refuses topic text holding NUL or an MQTT wildcard.
pub fn validate_topic_text(label: &str, value: &str) -> (r: Result<(), String>)
    ensures
        match topic_text_error(label@, value@) {
            Some(e) => r matches Err(m) && m@ == e,
            None => r is Ok,
        },
{
    if contains_char(value, '\0') {
        let mut m = owned(label);
        push_str(&mut m, " must not contain NUL bytes.");
        return Err(m);
    }
    if contains_char(value, '#') || contains_char(value, '+') {
        let mut m = owned(label);
        push_str(&mut m, " must not contain MQTT wildcard characters.");
        return Err(m);
    }
    Ok(())
}

/// A topic prefix as the options keep it: trimmed of white space, then of
/// slashes.
pub open spec fn normalized_prefix(prefix: Seq<char>) -> Seq<char> {
    trim_char(trim(prefix), '/')
}

/// The outcome of validating a topic prefix.
pub open spec fn topic_prefix_spec(label: Seq<char>, prefix: Seq<char>) -> Result<
    Seq<char>,
    Seq<char>,
> {
    let p = normalized_prefix(prefix);
    if p.len() == 0 {
        Err(label + " must not be empty."@)
    } else {
        match topic_text_error(label, p) {
            Some(e) => Err(e),
            None => Ok(p),
        }
    }
}

/// The view of a string result.
pub open spec fn result_view(r: Result<String, String>) -> Result<Seq<char>, Seq<char>> {
    match r {
        Ok(v) => Ok(v@),
        Err(e) => Err(e@),
    }
}

/// Normalizes and checks a topic prefix.
pub fn validate_topic_prefix(label: &str, prefix: &str) -> (r: Result<String, String>)
    ensures
        result_view(r) == topic_prefix_spec(label@, prefix@),
{
    let trimmed = trim_char_str(trim_str(prefix), '/');
    if str_is_blank_or_empty(trimmed) {
        let mut m = owned(label);
        push_str(&mut m, " must not be empty.");
        return Err(m);
    }
    match validate_topic_text(label, trimmed) {
        Ok(()) => Ok(owned(trimmed)),
        Err(e) => Err(e),
    }
}

fn str_is_blank_or_empty(s: &str) -> (b: bool)
    ensures
        b == (s@.len() == 0),
{
    s.unicode_len() == 0
}

/// A valid topic prefix is never empty, never starts or ends with `/`, and
/// holds no NUL and no MQTT wildcard.
pub proof fn lemma_topic_prefix_is_clean(label: Seq<char>, prefix: Seq<char>)
    ensures
        topic_prefix_spec(label, prefix) matches Ok(p) ==> {
            &&& p.len() > 0
            &&& p[0] != '/'
            &&& p.last() != '/'
            &&& !p.contains('\0')
            &&& !p.contains('#')
            &&& !p.contains('+')
        },
{
    crate::text::lemma_trim_char_ends(trim(prefix), '/');
}

/// The outcome of validating a node identifier.
pub open spec fn node_id_spec(node_id: Seq<char>) -> Result<Seq<char>, Seq<char>> {
    let t = trim(node_id);
    if t.len() == 0 {
        Err("--sink mqtt requires --mqtt-node-id <id>."@)
    } else if t.contains('/') {
        Err("--mqtt-node-id must be a single topic segment without '/'."@)
    } else {
        match topic_text_error("--mqtt-node-id"@, t) {
            Some(e) => Err(e),
            None => Ok(t),
        }
    }
}

/// Trims and checks a node identifier: one topic segment.
pub fn validate_node_id(node_id: &str) -> (r: Result<String, String>)
    ensures
        result_view(r) == node_id_spec(node_id@),
{
    let trimmed = trim_str(node_id);
    if str_is_blank_or_empty(trimmed) {
        return Err(owned("--sink mqtt requires --mqtt-node-id <id>."));
    }
    if contains_char(trimmed, '/') {
        return Err(owned("--mqtt-node-id must be a single topic segment without '/'."));
    }
    match validate_topic_text("--mqtt-node-id", trimmed) {
        Ok(()) => Ok(owned(trimmed)),
        Err(e) => Err(e),
    }
}

// ---------------------------------------------------------------------------
// Topics.
// ---------------------------------------------------------------------------
/// `<prefix>/<node>/status`.
pub open spec fn availability_topic_spec(topic_prefix: Seq<char>, node_id: Seq<char>) -> Seq<
    char,
> {
    topic_prefix + "/"@ + node_id + "/status"@
}

/// The availability topic of a node.
pub fn format_availability_topic(topic_prefix: &str, node_id: &str) -> (r: String)
    ensures
        r@ == availability_topic_spec(topic_prefix@, node_id@),
{
    let mut t = owned(topic_prefix);
    push_str(&mut t, "/");
    push_str(&mut t, node_id);
    push_str(&mut t, "/status");
    t
}

/// `<ha>/sensor/wtg_<node>_gpu<index>_<metric>/config`.
pub open spec fn ha_discovery_topic_spec(
    ha_prefix: Seq<char>,
    node_id: Seq<char>,
    gpu_index: u32,
    metric: Seq<char>,
) -> Seq<char> {
    ha_prefix + "/sensor/wtg_"@ + node_id + "_gpu"@ + dec(gpu_index as nat) + "_"@ + metric
        + "/config"@
}

/// The Home Assistant discovery topic of one sensor of one GPU.
pub fn format_ha_discovery_topic(ha_prefix: &str, node_id: &str, gpu_index: u32, metric: &str) -> (r:
    String)
    ensures
        r@ == ha_discovery_topic_spec(ha_prefix@, node_id@, gpu_index, metric@),
{
    let mut t = owned(ha_prefix);
    push_str(&mut t, "/sensor/wtg_");
    push_str(&mut t, node_id);
    push_str(&mut t, "_gpu");
    push_dec(&mut t, gpu_index as u64);
    push_str(&mut t, "_");
    push_str(&mut t, metric);
    push_str(&mut t, "/config");
    t
}

// ---------------------------------------------------------------------------
// Options.
// ---------------------------------------------------------------------------
/// Broker credentials.
#[derive(Clone)]
pub struct MqttAuthOptions {
    pub username: String,
    pub password: String,
}

/// The outcome of building credentials.
pub open spec fn auth_spec(username: Seq<char>, password: Seq<char>) -> Result<
    (Seq<char>, Seq<char>),
    Seq<char>,
> {
    if trim(username).len() == 0 {
        Err("--mqtt-username must not be empty."@)
    } else if password.len() == 0 {
        Err("MQTT password environment variable must not be empty."@)
    } else {
        Ok((trim(username), password))
    }
}

/// The view of credentials.
pub open spec fn auth_view(a: MqttAuthOptions) -> (Seq<char>, Seq<char>) {
    (a.username@, a.password@)
}

/// The view of an auth result.
pub open spec fn auth_result_view(r: Result<MqttAuthOptions, String>) -> Result<
    (Seq<char>, Seq<char>),
    Seq<char>,
> {
    match r {
        Ok(a) => Ok(auth_view(a)),
        Err(e) => Err(e@),
    }
}

/// The text shown for credentials, in which the password never appears.
pub open spec fn auth_text_spec(username: Seq<char>) -> Seq<char> {
    "MqttAuthOptions { username: "@ + json_string_spec(username) + ", password: \"<redacted>\" }"@
}

impl MqttAuthOptions {
    /// Builds credentials: the username is trimmed and must remain
    /// non-empty; the password must not be empty.
    pub fn new(username: String, password: String) -> (r: Result<Self, String>)
        ensures
            auth_result_view(r) == auth_spec(username@, password@),
    {
        let u = trim_str(username.as_str());
        if str_is_blank_or_empty(u) {
            return Err(owned("--mqtt-username must not be empty."));
        }
        if password.as_str().unicode_len() == 0 {
            return Err(owned("MQTT password environment variable must not be empty."));
        }
        Ok(MqttAuthOptions { username: owned(u), password })
    }

    /// A readable rendering of the credentials that leaves out the
    /// password.
    pub fn redacted_text(&self) -> (r: String)
        ensures
            r@ == auth_text_spec(self.username@),
    {
        let mut t = owned("MqttAuthOptions { username: ");
        push_json_string(&mut t, self.username.as_str());
        push_str(&mut t, ", password: \"<redacted>\" }");
        t
    }
}

/// Two sets of credentials with the same username render the same text,
/// whatever their passwords.
pub proof fn lemma_auth_text_ignores_password(a: MqttAuthOptions, b: MqttAuthOptions)
    requires
        a.username@ == b.username@,
    ensures
        auth_text_spec(a.username@) == auth_text_spec(b.username@),
{
}

/// Home Assistant discovery settings.
#[derive(Clone)]
pub struct MqttHaDiscoveryOptions {
    pub prefix: String,
}

impl MqttHaDiscoveryOptions {
    /// Validates the discovery prefix (the retain flag is accepted and not
    /// kept).
    pub fn new(prefix: String, retain: bool) -> (r: Result<Self, String>)
        ensures
            match topic_prefix_spec("--mqtt-ha-prefix"@, prefix@) {
                Ok(p) => r matches Ok(o) && o.prefix@ == p,
                Err(e) => r matches Err(m) && m@ == e,
            },
    {
        match validate_topic_prefix("--mqtt-ha-prefix", prefix.as_str()) {
            Ok(p) => Ok(MqttHaDiscoveryOptions { prefix: p }),
            Err(e) => Err(e),
        }
    }
}

/// A last-will message.
#[derive(Clone)]
pub struct MqttWill {
    pub topic: String,
    pub payload: String,
    pub retain: bool,
}

/// The connection and publishing options of the MQTT sink.
#[derive(Clone)]
pub struct MqttOptions {
    pub host: String,
    pub port: u16,
    pub topic_prefix: String,
    pub node_id: String,
    pub auth: Option<MqttAuthOptions>,
    pub ha_availability: bool,
    pub ha_discovery: Option<MqttHaDiscoveryOptions>,
}

/// The first refusal among the option checks, in the order they are made.
pub open spec fn options_error(
    host: Seq<char>,
    port: u16,
    topic_prefix: Seq<char>,
    node_id: Seq<char>,
) -> Option<Seq<char>> {
    if port == 0 {
        Some("--mqtt-port must be between 1 and 65535."@)
    } else if trim(host).len() == 0 {
        Some("--sink mqtt requires --mqtt-host <host>."@)
    } else if topic_prefix_spec("--mqtt-topic-prefix"@, topic_prefix) is Err {
        Some(topic_prefix_spec("--mqtt-topic-prefix"@, topic_prefix)->Err_0)
    } else if node_id_spec(node_id) is Err {
        Some(node_id_spec(node_id)->Err_0)
    } else {
        None
    }
}

impl MqttOptions {
    /// Validates and normalizes the options: the port is not zero, the
    /// host is trimmed and non-empty, the topic prefix and node identifier
    /// pass their checks.
    pub fn new(
        host: String,
        port: u16,
        topic_prefix: String,
        node_id: String,
        auth: Option<MqttAuthOptions>,
        ha_availability: bool,
        ha_discovery: Option<MqttHaDiscoveryOptions>,
    ) -> (r: Result<Self, String>)
        ensures
            match options_error(host@, port, topic_prefix@, node_id@) {
                Some(e) => r matches Err(m) && m@ == e,
                None => r matches Ok(o) && {
                    &&& o.host@ == trim(host@)
                    &&& o.port == port
                    &&& topic_prefix_spec("--mqtt-topic-prefix"@, topic_prefix@) == Ok::<
                        Seq<char>,
                        Seq<char>,
                    >(o.topic_prefix@)
                    &&& node_id_spec(node_id@) == Ok::<Seq<char>, Seq<char>>(o.node_id@)
                    &&& o.auth == auth
                    &&& o.ha_availability == ha_availability
                    &&& o.ha_discovery == ha_discovery
                },
            },
    {
        if port == 0 {
            return Err(owned("--mqtt-port must be between 1 and 65535."));
        }
        let h = trim_str(host.as_str());
        if str_is_blank_or_empty(h) {
            return Err(owned("--sink mqtt requires --mqtt-host <host>."));
        }
        let host = owned(h);
        let topic_prefix = match validate_topic_prefix("--mqtt-topic-prefix", topic_prefix.as_str()) {
            Ok(p) => p,
            Err(e) => return Err(e),
        };
        let node_id = match validate_node_id(node_id.as_str()) {
            Ok(n) => n,
            Err(e) => return Err(e),
        };
        Ok(MqttOptions { host, port, topic_prefix, node_id, auth, ha_availability, ha_discovery })
    }

    /// The availability topic of these options.
    pub fn availability_topic(&self) -> (r: String)
        ensures
            r@ == availability_topic_spec(self.topic_prefix@, self.node_id@),
    {
        format_availability_topic(self.topic_prefix.as_str(), self.node_id.as_str())
    }

    /// The retained `offline` will that announces unavailability, when
    /// Home Assistant availability is on.
    pub fn connect_will(&self) -> (r: Option<MqttWill>)
        ensures
            self.ha_availability ==> (r matches Some(w) && w.topic@ == availability_topic_spec(
                self.topic_prefix@,
                self.node_id@,
            ) && w.payload@ == "offline"@ && w.retain),
            !self.ha_availability ==> r is None,
    {
        if !self.ha_availability {
            return None;
        }
        Some(MqttWill { topic: self.availability_topic(), payload: owned("offline"), retain: true })
    }

    /// The MQTT client identifier for a process: `wtg-<node>-<pid>`.
    pub fn client_id(&self, process_id: u32) -> (r: String)
        ensures
            r@ == "wtg-"@ + self.node_id@ + "-"@ + dec(process_id as nat),
    {
        let mut t = owned("wtg-");
        push_str(&mut t, self.node_id.as_str());
        push_str(&mut t, "-");
        push_dec(&mut t, process_id as u64);
        t
    }

    /// A readable rendering of the options, in which the password never
    /// appears.
    pub fn redacted_text(&self) -> (r: String)
        ensures
            r@ == options_text_spec(self),
    {
        let mut t = owned("MqttOptions { host: ");
        push_json_string(&mut t, self.host.as_str());
        push_str(&mut t, ", port: ");
        push_dec(&mut t, self.port as u64);
        push_str(&mut t, ", topic_prefix: ");
        push_json_string(&mut t, self.topic_prefix.as_str());
        push_str(&mut t, ", node_id: ");
        push_json_string(&mut t, self.node_id.as_str());
        push_str(&mut t, ", auth: ");
        match &self.auth {
            Some(a) => {
                push_str(&mut t, "Some(");
                let at = a.redacted_text();
                push_str(&mut t, at.as_str());
                push_str(&mut t, ")");
            },
            None => push_str(&mut t, "None"),
        }
        push_str(&mut t, ", ha_availability: ");
        push_str(&mut t, if self.ha_availability { "true" } else { "false" });
        push_str(&mut t, ", ha_discovery: ");
        match &self.ha_discovery {
            Some(d) => {
                push_str(&mut t, "Some(MqttHaDiscoveryOptions { prefix: ");
                push_json_string(&mut t, d.prefix.as_str());
                push_str(&mut t, " })");
            },
            None => push_str(&mut t, "None"),
        }
        push_str(&mut t, " }");
        t
    }
}

/// The rendering of options; the password is not an input.
pub open spec fn options_text_spec(o: &MqttOptions) -> Seq<char> {
    "MqttOptions { host: "@ + json_string_spec(o.host@) + ", port: "@ + dec(o.port as nat)
        + ", topic_prefix: "@ + json_string_spec(o.topic_prefix@) + ", node_id: "@
        + json_string_spec(o.node_id@) + ", auth: "@ + match o.auth {
        Some(a) => "Some("@ + auth_text_spec(a.username@) + ")"@,
        None => "None"@,
    } + ", ha_availability: "@ + (if o.ha_availability {
        "true"@
    } else {
        "false"@
    }) + ", ha_discovery: "@ + match o.ha_discovery {
        Some(d) => "Some(MqttHaDiscoveryOptions { prefix: "@ + json_string_spec(d.prefix@)
            + " })"@,
        None => "None"@,
    } + " }"@
}

/// The view of optional credentials.
pub open spec fn opt_auth_view(auth: Option<&MqttAuthOptions>) -> Option<(Seq<char>, Seq<char>)> {
    match auth {
        Some(a) => Some((a.username@, a.password@)),
        None => None,
    }
}

/// The view of an optional will.
pub open spec fn opt_will_view(will: Option<&MqttWill>) -> Option<(Seq<char>, Seq<char>, bool)> {
    match will {
        Some(w) => Some((w.topic@, w.payload@, w.retain)),
        None => None,
    }
}

/// Builds the body of the CONNECT packet for a client.
pub fn build_connect_body(
    client_id: &str,
    auth: Option<&MqttAuthOptions>,
    will: Option<&MqttWill>,
) -> (r: Result<Vec<u8>, String>)
    ensures
        connect_strings_fit(client_id@, opt_auth_view(auth), opt_will_view(will)) ==> (r matches Ok(
            v,
        ) && v@ == connect_body_spec(client_id@, opt_auth_view(auth), opt_will_view(will))),
        !connect_strings_fit(client_id@, opt_auth_view(auth), opt_will_view(will)) ==> (r matches Err(
            e,
        ) && e@ == too_long_message()),
{
    let a = match auth {
        Some(a) => Some((a.username.as_str(), a.password.as_str())),
        None => None,
    };
    let w = match will {
        Some(w) => Some((w.topic.as_str(), w.payload.as_str(), w.retain)),
        None => None,
    };
    build_connect_body_parts(client_id, a, w)
}

// ---------------------------------------------------------------------------
// Retained Home Assistant cleanup.
// ---------------------------------------------------------------------------
/// One message to publish.
#[derive(Clone)]
pub struct MqttPublishSpec {
    pub topic: String,
    pub payload: Vec<u8>,
    pub retain: bool,
}

/// The metrics whose discovery configs the cleanup clears, in order.
pub open spec fn cleanup_metric_keys_spec() -> Seq<Seq<char>> {
    seq![
        "util_gpu_pct"@,
        "util_mem_controller_pct"@,
        "vram_used_mib"@,
        "vram_total_mib"@,
        "power_w"@,
        "power_limit_w"@,
        "temp_c"@,
        "driver_version"@,
        "cuda_driver_version"@,
        "compute_mode"@,
        "perf_state"@,
        "pci_bus_id"@,
        "wtg_version"@,
    ]
}

/// The metrics whose discovery configs the cleanup clears.
pub fn cleanup_metric_keys() -> (keys: Vec<&'static str>)
    ensures
        keys@.map_values(|k: &str| k@) == cleanup_metric_keys_spec(),
{
    let keys = vec![
        "util_gpu_pct",
        "util_mem_controller_pct",
        "vram_used_mib",
        "vram_total_mib",
        "power_w",
        "power_limit_w",
        "temp_c",
        "driver_version",
        "cuda_driver_version",
        "compute_mode",
        "perf_state",
        "pci_bus_id",
        "wtg_version",
    ];
    assert(keys@.map_values(|k: &str| k@) =~= cleanup_metric_keys_spec());
    keys
}

/// The view of a publish.
pub open spec fn publish_view(p: MqttPublishSpec) -> (Seq<char>, Seq<u8>, bool) {
    (p.topic@, p.payload@, p.retain)
}

/// The retained empty messages that clear every discovery config of every
/// GPU and then the availability topic.
pub fn ha_discovery_cleanup_specs(
    ha_prefix: &str,
    topic_prefix: &str,
    node_id: &str,
    gpu_indices: &[u32],
) -> (specs: Vec<MqttPublishSpec>)
    requires
        gpu_indices@.len() * 13 + 1 <= usize::MAX,
    ensures
        specs@.len() == gpu_indices@.len() * 13 + 1,
        forall|g: int, m: int|
            0 <= g < gpu_indices@.len() && 0 <= m < 13 ==> publish_view(
                #[trigger] specs@[g * 13 + m],
            ) == (
                ha_discovery_topic_spec(
                    ha_prefix@,
                    node_id@,
                    gpu_indices@[g],
                    cleanup_metric_keys_spec()[m],
                ),
                Seq::<u8>::empty(),
                true,
            ),
        publish_view(specs@.last()) == (
            availability_topic_spec(topic_prefix@, node_id@),
            Seq::<u8>::empty(),
            true,
        ),
{
    let keys = cleanup_metric_keys();
    assert(keys@.len() == 13) by {
        assert(keys@.map_values(|k: &str| k@).len() == keys@.len());
    }
    let mut specs: Vec<MqttPublishSpec> = Vec::new();
    let mut g: usize = 0;
    while g < gpu_indices.len()
        invariant
            g <= gpu_indices@.len(),
            gpu_indices@.len() * 13 + 1 <= usize::MAX,
            keys@.len() == 13,
            keys@.map_values(|k: &str| k@) == cleanup_metric_keys_spec(),
            specs@.len() == g * 13,
            forall|gg: int, m: int|
                0 <= gg < g && 0 <= m < 13 ==> publish_view(#[trigger] specs@[gg * 13 + m]) == (
                    ha_discovery_topic_spec(
                        ha_prefix@,
                        node_id@,
                        gpu_indices@[gg],
                        cleanup_metric_keys_spec()[m],
                    ),
                    Seq::<u8>::empty(),
                    true,
                ),
        decreases gpu_indices@.len() - g,
    {
        let mut m: usize = 0;
        while m < keys.len()
            invariant
                g < gpu_indices@.len(),
                gpu_indices@.len() * 13 + 1 <= usize::MAX,
                keys@.len() == 13,
                keys@.map_values(|k: &str| k@) == cleanup_metric_keys_spec(),
                m <= 13,
                specs@.len() == g * 13 + m,
                forall|gg: int, mm: int|
                    0 <= gg < g && 0 <= mm < 13 ==> publish_view(#[trigger] specs@[gg * 13 + mm])
                        == (
                        ha_discovery_topic_spec(
                            ha_prefix@,
                            node_id@,
                            gpu_indices@[gg],
                            cleanup_metric_keys_spec()[mm],
                        ),
                        Seq::<u8>::empty(),
                        true,
                    ),
                forall|mm: int|
                    0 <= mm < m ==> publish_view(#[trigger] specs@[g * 13 + mm]) == (
                        ha_discovery_topic_spec(
                            ha_prefix@,
                            node_id@,
                            gpu_indices@[g as int],
                            cleanup_metric_keys_spec()[mm],
                        ),
                        Seq::<u8>::empty(),
                        true,
                    ),
            decreases 13 - m,
        {
            assert(keys@[m as int]@ == cleanup_metric_keys_spec()[m as int]);
            let topic = format_ha_discovery_topic(ha_prefix, node_id, gpu_indices[g], keys[m]);
            assert(g * 13 + m < gpu_indices@.len() * 13) by (nonlinear_arith)
                requires
                    g < gpu_indices@.len(),
                    m < 13,
            ;
            specs.push(MqttPublishSpec { topic, payload: Vec::new(), retain: true });
            assert(specs@[g * 13 + m] == specs@.last());
            m = m + 1;
        }
        assert forall|gg: int, mm: int|
            0 <= gg < g + 1 && 0 <= mm < 13 implies publish_view(#[trigger] specs@[gg * 13 + mm])
            == (
            ha_discovery_topic_spec(
                ha_prefix@,
                node_id@,
                gpu_indices@[gg],
                cleanup_metric_keys_spec()[mm],
            ),
            Seq::<u8>::empty(),
            true,
        ) by {
            if gg < g {
            } else {
                assert(gg == g);
            }
        }
        assert((g + 1) * 13 == g * 13 + 13) by (nonlinear_arith);
        g = g + 1;
    }
    specs.push(
        MqttPublishSpec {
            topic: format_availability_topic(topic_prefix, node_id),
            payload: Vec::new(),
            retain: true,
        },
    );
    assert forall|gg: int, mm: int|
        0 <= gg < gpu_indices@.len() && 0 <= mm < 13 implies publish_view(
            #[trigger] specs@[gg * 13 + mm],
        ) == (
        ha_discovery_topic_spec(
            ha_prefix@,
            node_id@,
            gpu_indices@[gg],
            cleanup_metric_keys_spec()[mm],
        ),
        Seq::<u8>::empty(),
        true,
    ) by {
        assert(gg * 13 + mm < gpu_indices@.len() * 13) by (nonlinear_arith)
            requires
                gg < gpu_indices@.len(),
                mm < 13,
                0 <= gg,
                0 <= mm,
        ;
    }
    specs
}

} // verus!
