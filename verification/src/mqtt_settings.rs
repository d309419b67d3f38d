//! Turning loose MQTT values (from flags, the config file or the UI form)
//! into validated options and saved configurations.
use vstd::prelude::*;

use crate::config::SavedMqttConfig;
use crate::mqtt::{
    auth_spec, auth_view, default_ha_discovery_prefix, default_ha_discovery_prefix_spec,
    default_topic_prefix, default_topic_prefix_spec, options_error, node_id_spec,
    topic_prefix_spec, MqttAuthOptions, MqttHaDiscoveryOptions, MqttOptions, DEFAULT_MQTT_PORT,
};
use crate::text::{
    non_empty, non_empty_spec, opt_string_view, opt_view, owned, parse_unsigned,
    parse_unsigned_spec, push_str, trim, trim_str, trim_to_option, trim_to_option_spec,
};

verus! {

/// Why a combination of credential values is refused, if it is: a username
/// needs exactly one of a password or a password variable, and neither
/// comes without a username.
pub open spec fn auth_combination_error(u: bool, p: bool, e: bool) -> Option<Seq<char>> {
    if !u && !p && !e {
        None
    } else if u && p && !e {
        None
    } else if u && !p && e {
        None
    } else if u && !p && !e {
        Some("--mqtt-username requires --mqtt-password or --mqtt-password-env."@)
    } else if !u && p && !e {
        Some("--mqtt-password requires --mqtt-username."@)
    } else if !u && !p && e {
        Some("--mqtt-password-env requires --mqtt-username."@)
    } else {
        Some("--mqtt-password and --mqtt-password-env cannot be used together."@)
    }
}

/// The refusal for three optional credential values, blank ones counting as
/// absent.
pub open spec fn auth_values_error(
    username: Option<Seq<char>>,
    password: Option<Seq<char>>,
    password_env: Option<Seq<char>>,
) -> Option<Seq<char>> {
    auth_combination_error(
        non_empty_spec(username),
        non_empty_spec(password),
        non_empty_spec(password_env),
    )
}

/// Checks that credential values come in an accepted combination.
pub fn validate_mqtt_auth_combination(
    username: Option<&str>,
    password: Option<&str>,
    password_env: Option<&str>,
) -> (r: Result<(), String>)
    ensures
        match auth_values_error(opt_view(username), opt_view(password), opt_view(password_env)) {
            Some(e) => r matches Err(m) && m@ == e,
            None => r is Ok,
        },
{
    let u = non_empty(username);
    let p = non_empty(password);
    let e = non_empty(password_env);
    if !u && !p && !e {
        Ok(())
    } else if u && p && !e {
        Ok(())
    } else if u && !p && e {
        Ok(())
    } else if u && !p && !e {
        Err(owned("--mqtt-username requires --mqtt-password or --mqtt-password-env."))
    } else if !u && p && !e {
        Err(owned("--mqtt-password requires --mqtt-username."))
    } else if !u && !p && e {
        Err(owned("--mqtt-password-env requires --mqtt-username."))
    } else {
        Err(owned("--mqtt-password and --mqtt-password-env cannot be used together."))
    }
}

/// The port a value names: 1883 when absent or blank, else the trimmed
/// value read as a `u16`.
pub open spec fn port_spec(port: Option<Seq<char>>) -> Result<u16, Seq<char>> {
    match trim_to_option_spec(port) {
        Some(v) => match parse_unsigned_spec(v, 65535) {
            Some(n) => Ok(n as u16),
            None => Err("--mqtt-port must be a TCP port number. Got: "@ + v),
        },
        None => Ok(1883),
    }
}

/// Reads a port value.
pub fn parse_port_value(port: Option<&str>) -> (r: Result<u16, String>)
    ensures
        match port_spec(opt_view(port)) {
            Ok(n) => r == Ok::<u16, String>(n),
            Err(e) => r matches Err(m) && m@ == e,
        },
{
    match trim_to_option(port) {
        Some(value) => match parse_unsigned(value.as_str(), 65535) {
            Some(n) => Ok(n as u16),
            None => {
                let mut m = owned("--mqtt-port must be a TCP port number. Got: ");
                push_str(&mut m, value.as_str());
                Err(m)
            },
        },
        None => Ok(DEFAULT_MQTT_PORT),
    }
}

/// The trimmed value, or the default when absent or blank.
pub open spec fn or_default(value: Option<Seq<char>>, default: Seq<char>) -> Seq<char> {
    match trim_to_option_spec(value) {
        Some(v) => v,
        None => default,
    }
}

fn trimmed_or(value: Option<&str>, default: &str) -> (r: String)
    ensures
        r@ == or_default(opt_view(value), default@),
{
    match trim_to_option(value) {
        Some(v) => v,
        None => owned(default),
    }
}

/// A value, or the empty text when absent.
pub open spec fn or_empty(value: Option<Seq<char>>) -> Seq<char> {
    match value {
        Some(v) => v,
        None => Seq::empty(),
    }
}

fn unwrap_or_empty(value: Option<&str>) -> (r: String)
    ensures
        r@ == or_empty(opt_view(value)),
{
    match value {
        Some(v) => owned(v),
        None => String::new(),
    }
}

/// The outcome of building a saved configuration from values.
pub open spec fn saved_config_error(
    host: Option<Seq<char>>,
    port: Option<Seq<char>>,
    username: Option<Seq<char>>,
    password: Option<Seq<char>>,
    password_env: Option<Seq<char>>,
    node_id: Option<Seq<char>>,
    ha_discovery: bool,
    ha_prefix: Option<Seq<char>>,
    retain_discovery: bool,
) -> Option<Seq<char>> {
    if auth_values_error(username, password, password_env) is Some {
        auth_values_error(username, password, password_env)
    } else if !non_empty_spec(host) {
        Some("--mqtt-save-config requires --mqtt-host <host>."@)
    } else if !non_empty_spec(node_id) {
        Some("--mqtt-save-config requires --mqtt-node-id <id>."@)
    } else if ha_prefix is Some && !ha_discovery {
        Some("--mqtt-ha-prefix requires --mqtt-ha-discovery."@)
    } else if retain_discovery && !ha_discovery {
        Some("--mqtt-retain-discovery requires --mqtt-ha-discovery."@)
    } else if port_spec(port) is Err {
        Some(port_spec(port)->Err_0)
    } else {
        None
    }
}

/// Builds the configuration that `--mqtt-save-config` writes from the
/// values given.
pub fn saved_mqtt_config_from_values(
    host: Option<&str>,
    port: Option<&str>,
    username: Option<&str>,
    password: Option<&str>,
    password_env: Option<&str>,
    topic_prefix: Option<&str>,
    node_id: Option<&str>,
    ha_discovery: bool,
    ha_prefix: Option<&str>,
    retain_discovery: bool,
) -> (r: Result<SavedMqttConfig, String>)
    ensures
        match saved_config_error(
            opt_view(host),
            opt_view(port),
            opt_view(username),
            opt_view(password),
            opt_view(password_env),
            opt_view(node_id),
            ha_discovery,
            opt_view(ha_prefix),
            retain_discovery,
        ) {
            Some(e) => r matches Err(m) && m@ == e,
            None => r matches Ok(c) && {
                &&& c.host@ == trim(or_empty(opt_view(host)))
                &&& port_spec(opt_view(port)) == Ok::<u16, Seq<char>>(c.port)
                &&& c.username@ == trim(or_empty(opt_view(username)))
                &&& opt_string_view(c.password) == trim_to_option_spec(opt_view(password))
                &&& opt_string_view(c.password_env) == trim_to_option_spec(opt_view(password_env))
                &&& c.topic_prefix@ == or_default(opt_view(topic_prefix), default_topic_prefix_spec())
                &&& c.node_id@ == trim(or_empty(opt_view(node_id)))
                &&& c.ha_discovery == ha_discovery
                &&& c.ha_discovery_prefix@ == or_default(
                    opt_view(ha_prefix),
                    default_ha_discovery_prefix_spec(),
                )
                &&& c.ha_retain_discovery == retain_discovery
            },
        },
{
    match validate_mqtt_auth_combination(username, password, password_env) {
        Ok(()) => {},
        Err(e) => return Err(e),
    }
    if !non_empty(host) {
        return Err(owned("--mqtt-save-config requires --mqtt-host <host>."));
    }
    if !non_empty(node_id) {
        return Err(owned("--mqtt-save-config requires --mqtt-node-id <id>."));
    }
    if ha_prefix.is_some() && !ha_discovery {
        return Err(owned("--mqtt-ha-prefix requires --mqtt-ha-discovery."));
    }
    if retain_discovery && !ha_discovery {
        return Err(owned("--mqtt-retain-discovery requires --mqtt-ha-discovery."));
    }
    let host_value = unwrap_or_empty(host);
    let host_trimmed = owned(trim_str(host_value.as_str()));
    let port_value = match parse_port_value(port) {
        Ok(p) => p,
        Err(e) => return Err(e),
    };
    let username_value = unwrap_or_empty(username);
    let node_value = unwrap_or_empty(node_id);
    Ok(
        SavedMqttConfig {
            host: host_trimmed,
            port: port_value,
            username: owned(trim_str(username_value.as_str())),
            password: trim_to_option(password),
            password_env: trim_to_option(password_env),
            topic_prefix: trimmed_or(topic_prefix, default_topic_prefix()),
            node_id: owned(trim_str(node_value.as_str())),
            ha_discovery,
            ha_discovery_prefix: trimmed_or(ha_prefix, default_ha_discovery_prefix()),
            ha_retain_discovery: retain_discovery,
        },
    )
}

// ---------------------------------------------------------------------------
// Credentials, with the password possibly read from the environment.
// ---------------------------------------------------------------------------
/// The outcome of resolving a password variable, given what the variable
/// holds (`None` when it is unset or not valid Unicode).
pub open spec fn resolve_spec(
    username: Seq<char>,
    password_env: Seq<char>,
    env_value: Option<Seq<char>>,
) -> Result<(Seq<char>, Seq<char>), Seq<char>> {
    let name = trim(password_env);
    if name.len() == 0 {
        Err("--mqtt-password-env must not be empty."@)
    } else {
        match env_value {
            None => Err(
                "--mqtt-password-env variable "@ + name
                    + " is not set or is not valid Unicode."@,
            ),
            Some(v) => if v.len() == 0 {
                Err("--mqtt-password-env variable "@ + name + " must not be empty."@)
            } else {
                auth_spec(username, v)
            },
        }
    }
}

/// The view of a credentials result.
pub open spec fn auth_result(r: Result<MqttAuthOptions, String>) -> Result<
    (Seq<char>, Seq<char>),
    Seq<char>,
> {
    match r {
        Ok(a) => Ok(auth_view(a)),
        Err(e) => Err(e@),
    }
}

/// Builds credentials from a username and the value of the password
/// variable named by `password_env` (trimmed), as the caller read it.
pub fn resolve_mqtt_auth(username: &str, password_env: &str, env_value: Option<String>) -> (r:
    Result<MqttAuthOptions, String>)
    ensures
        auth_result(r) == resolve_spec(username@, password_env@, opt_string_view(env_value)),
{
    let name = trim_str(password_env);
    if name.unicode_len() == 0 {
        return Err(owned("--mqtt-password-env must not be empty."));
    }
    let password = match env_value {
        Some(v) => v,
        None => {
            let mut m = owned("--mqtt-password-env variable ");
            push_str(&mut m, name);
            push_str(&mut m, " is not set or is not valid Unicode.");
            return Err(m);
        },
    };
    if password.as_str().unicode_len() == 0 {
        let mut m = owned("--mqtt-password-env variable ");
        push_str(&mut m, name);
        push_str(&mut m, " must not be empty.");
        return Err(m);
    }
    MqttAuthOptions::new(owned(username), password)
}

/// The environment variable whose value credentials need, if any: the
/// trimmed password variable, when a username comes with one and no
/// password.
pub open spec fn password_env_lookup_spec(
    username: Option<Seq<char>>,
    password: Option<Seq<char>>,
    password_env: Option<Seq<char>>,
) -> Option<Seq<char>> {
    if auth_values_error(username, password, password_env) is None && non_empty_spec(username)
        && !non_empty_spec(password) && non_empty_spec(password_env) {
        trim_to_option_spec(password_env)
    } else {
        None
    }
}

/// Names the environment variable that must be read for the credentials,
/// if one must.
pub fn password_env_lookup(
    username: Option<&str>,
    password: Option<&str>,
    password_env: Option<&str>,
) -> (r: Option<String>)
    ensures
        opt_string_view(r) == password_env_lookup_spec(
            opt_view(username),
            opt_view(password),
            opt_view(password_env),
        ),
{
    if validate_mqtt_auth_combination(username, password, password_env).is_ok() && non_empty(
        username,
    ) && !non_empty(password) && non_empty(password_env) {
        trim_to_option(password_env)
    } else {
        None
    }
}

/// The outcome of building credentials from values.
pub open spec fn auth_values_spec(
    username: Option<Seq<char>>,
    password: Option<Seq<char>>,
    password_env: Option<Seq<char>>,
    env_value: Option<Seq<char>>,
) -> Result<Option<(Seq<char>, Seq<char>)>, Seq<char>> {
    match auth_values_error(username, password, password_env) {
        Some(e) => Err(e),
        None => if non_empty_spec(username) && non_empty_spec(password) {
            match auth_spec(trim(or_empty(username)), trim(or_empty(password))) {
                Ok(a) => Ok(Some(a)),
                Err(e) => Err(e),
            }
        } else if non_empty_spec(username) && non_empty_spec(password_env) {
            match resolve_spec(trim(or_empty(username)), trim(or_empty(password_env)), env_value) {
                Ok(a) => Ok(Some(a)),
                Err(e) => Err(e),
            }
        } else {
            Ok(None)
        },
    }
}

/// The view of an optional credentials result.
pub open spec fn opt_auth_result(r: Result<Option<MqttAuthOptions>, String>) -> Result<
    Option<(Seq<char>, Seq<char>)>,
    Seq<char>,
> {
    match r {
        Ok(Some(a)) => Ok(Some(auth_view(a))),
        Ok(None) => Ok(None),
        Err(e) => Err(e@),
    }
}

/// Builds optional credentials; `env_value` is what the variable named by
/// [`password_env_lookup`] holds, when that names one.
pub fn mqtt_auth_from_values(
    username: Option<&str>,
    password: Option<&str>,
    password_env: Option<&str>,
    env_value: Option<String>,
) -> (r: Result<Option<MqttAuthOptions>, String>)
    ensures
        opt_auth_result(r) == auth_values_spec(
            opt_view(username),
            opt_view(password),
            opt_view(password_env),
            opt_string_view(env_value),
        ),
{
    match validate_mqtt_auth_combination(username, password, password_env) {
        Ok(()) => {},
        Err(e) => return Err(e),
    }
    match (trim_to_option(username), trim_to_option(password), trim_to_option(password_env)) {
        (Some(u), Some(p), None) => match MqttAuthOptions::new(u, p) {
            Ok(a) => Ok(Some(a)),
            Err(e) => Err(e),
        },
        (Some(u), None, Some(e)) => match resolve_mqtt_auth(u.as_str(), e.as_str(), env_value) {
            Ok(a) => Ok(Some(a)),
            Err(e) => Err(e),
        },
        _ => Ok(None),
    }
}

/// The discovery prefix used when discovery or its cleanup is on.
pub open spec fn ha_spec(on: bool, ha_prefix: Option<Seq<char>>) -> Result<
    Option<Seq<char>>,
    Seq<char>,
> {
    if on {
        match topic_prefix_spec(
            "--mqtt-ha-prefix"@,
            or_default(ha_prefix, default_ha_discovery_prefix_spec()),
        ) {
            Ok(p) => Ok(Some(p)),
            Err(e) => Err(e),
        }
    } else {
        Ok(None)
    }
}

/// Whether built options hold exactly the given parts.
pub open spec fn options_hold(
    o: MqttOptions,
    host: Seq<char>,
    port: u16,
    topic_prefix: Seq<char>,
    node_id: Seq<char>,
    auth: Option<(Seq<char>, Seq<char>)>,
    ha_availability: bool,
    ha_prefix: Option<Seq<char>>,
) -> bool {
    &&& o.host@ == trim(host)
    &&& o.port == port
    &&& topic_prefix_spec("--mqtt-topic-prefix"@, topic_prefix) == Ok::<Seq<char>, Seq<char>>(
        o.topic_prefix@,
    )
    &&& node_id_spec(node_id) == Ok::<Seq<char>, Seq<char>>(o.node_id@)
    &&& match (o.auth, auth) {
        (Some(a), Some(b)) => auth_view(a) == b,
        (None, None) => true,
        _ => false,
    }
    &&& o.ha_availability == ha_availability
    &&& match (o.ha_discovery, ha_prefix) {
        (Some(d), Some(p)) => d.prefix@ == p,
        (None, None) => true,
        _ => false,
    }
}

/// The outcome of building options from values, as an error or the parts
/// of the options.
pub open spec fn options_values_spec(
    host: Option<Seq<char>>,
    port: Option<Seq<char>>,
    topic_prefix: Option<Seq<char>>,
    node_id: Option<Seq<char>>,
    username: Option<Seq<char>>,
    password: Option<Seq<char>>,
    password_env: Option<Seq<char>>,
    ha_discovery: bool,
    ha_remove_discovery: bool,
    ha_prefix: Option<Seq<char>>,
    env_value: Option<Seq<char>>,
) -> Result<
    (
        Seq<char>,
        u16,
        Seq<char>,
        Seq<char>,
        Option<(Seq<char>, Seq<char>)>,
        bool,
        Option<Seq<char>>,
    ),
    Seq<char>,
> {
    match auth_values_spec(username, password, password_env, env_value) {
        Err(e) => Err(e),
        Ok(a) => match ha_spec(ha_discovery || ha_remove_discovery, ha_prefix) {
            Err(e) => Err(e),
            Ok(hp) => match port_spec(port) {
                Err(e) => Err(e),
                Ok(pn) => {
                    let tp = or_default(topic_prefix, default_topic_prefix_spec());
                    match options_error(or_empty(host), pn, tp, or_empty(node_id)) {
                        Some(e) => Err(e),
                        None => Ok(
                            (
                                or_empty(host),
                                pn,
                                tp,
                                or_empty(node_id),
                                a,
                                hp is Some && !ha_remove_discovery,
                                hp,
                            ),
                        ),
                    }
                },
            },
        },
    }
}

/// Builds MQTT options from values when MQTT is active; `env_value` is what
/// the variable named by [`password_env_lookup`] holds, when that names one.
pub fn mqtt_options_from_values(
    active: bool,
    host: Option<&str>,
    port: Option<&str>,
    topic_prefix: Option<&str>,
    node_id: Option<&str>,
    username: Option<&str>,
    password: Option<&str>,
    password_env: Option<&str>,
    ha_discovery: bool,
    ha_remove_discovery: bool,
    ha_prefix: Option<&str>,
    retain_discovery: bool,
    env_value: Option<String>,
) -> (r: Result<Option<MqttOptions>, String>)
    ensures
        !active ==> r matches Ok(None),
        active ==> match options_values_spec(
            opt_view(host),
            opt_view(port),
            opt_view(topic_prefix),
            opt_view(node_id),
            opt_view(username),
            opt_view(password),
            opt_view(password_env),
            ha_discovery,
            ha_remove_discovery,
            opt_view(ha_prefix),
            opt_string_view(env_value),
        ) {
            Err(e) => r matches Err(m) && m@ == e,
            Ok(v) => r matches Ok(Some(o)) && options_hold(o, v.0, v.1, v.2, v.3, v.4, v.5, v.6),
        },
{
    if !active {
        return Ok(None);
    }
    let auth = match mqtt_auth_from_values(username, password, password_env, env_value) {
        Ok(a) => a,
        Err(e) => return Err(e),
    };
    let ha = if ha_discovery || ha_remove_discovery {
        let prefix = trimmed_or(ha_prefix, default_ha_discovery_prefix());
        match MqttHaDiscoveryOptions::new(prefix, retain_discovery) {
            Ok(d) => Some(d),
            Err(e) => return Err(e),
        }
    } else {
        None
    };
    let host_value = unwrap_or_empty(host);
    let port_value = match parse_port_value(port) {
        Ok(p) => p,
        Err(e) => return Err(e),
    };
    let prefix_value = trimmed_or(topic_prefix, default_topic_prefix());
    let node_value = unwrap_or_empty(node_id);
    let availability = ha.is_some() && !ha_remove_discovery;
    match MqttOptions::new(host_value, port_value, prefix_value, node_value, auth, availability, ha) {
        Ok(o) => Ok(Some(o)),
        Err(e) => Err(e),
    }
}

} // verus!
