//! `com.listo.mqtt-client` (native process): the client, pub and sub kinds.
//!
//! A client node owns an MQTT session, kept in a
//! [`Registry`](crate::registry::Registry) under the client's node path. Pub
//! and sub nodes live directly under a client and use its session.

use vstd::prelude::*;
use vstd::string::StringExecFns;
use vstd::utf8::encode_utf8;
use vstd::slice::slice_to_vec;

use rumqttc::MqttOptions;

use crate::json::{json_string_value, parse_json_string};
use crate::plugin::{is_runtime_error, runtime_error, NodeError};
use crate::text::{concat3, text_eq};

verus! {

/// The MQTT client options type of `rumqttc`, carried opaquely.
#[verifier::external_type_specification]
#[verifier::external_body]
pub struct ExMqttOptions(MqttOptions);

/// The client kind (`com.listo.mqtt-client.client`): broker settings and
/// session.
pub struct Client;

/// Settings of a client node.
#[derive(Clone)]
pub struct ClientConfig {
    pub host: String,
    pub port: u16,
    pub client_id: String,
    pub username: Option<String>,
    pub password: Option<String>,
    pub keep_alive_secs: u64,
}

impl Default for ClientConfig {
    fn default() -> (c: Self)
        ensures
            c.host@ == "localhost"@,
            c.port == 1883,
            c.client_id@ == Seq::<char>::empty(),
            c.username is None,
            c.password is None,
            c.keep_alive_secs == 60,
    {
        ClientConfig {
            host: String::from_str("localhost"),
            port: 1883,
            client_id: String::new(),
            username: None,
            password: None,
            keep_alive_secs: 60,
        }
    }
}

/// The publish kind (`com.listo.mqtt-client.pub`): publishes inbound
/// messages to a topic.
pub struct Publish;

/// Settings of a pub node.
#[derive(Clone)]
pub struct PublishConfig {
    pub topic: String,
    pub qos: u8,
    pub retain: bool,
}

impl Default for PublishConfig {
    fn default() -> (c: Self)
        ensures
            c.topic@ == Seq::<char>::empty(),
            c.qos == 0,
            !c.retain,
    {
        PublishConfig { topic: String::new(), qos: 0, retain: false }
    }
}

/// The subscribe kind (`com.listo.mqtt-client.sub`): subscribes to a topic.
pub struct Subscribe;

/// Settings of a sub node.
#[derive(Clone)]
pub struct SubscribeConfig {
    pub topic: String,
    pub qos: u8,
}

impl Default for SubscribeConfig {
    fn default() -> (c: Self)
        ensures
            c.topic@ == Seq::<char>::empty(),
            c.qos == 0,
    {
        SubscribeConfig { topic: String::new(), qos: 0 }
    }
}

/// MQTT delivery guarantees.
#[derive(Clone, Copy, PartialEq, Eq, Structural)]
pub enum Qos {
    AtMostOnce,
    AtLeastOnce,
    ExactlyOnce,
}

/// The guarantee a configured level asks for: 0 and 1 as in MQTT, anything
/// higher as exactly-once.
pub open spec fn qos_of(n: u8) -> Qos {
    if n == 0 {
        Qos::AtMostOnce
    } else if n == 1 {
        Qos::AtLeastOnce
    } else {
        Qos::ExactlyOnce
    }
}

/// Maps a configured QoS level to a delivery guarantee.
pub fn parse_qos(n: u8) -> (q: Qos)
    ensures
        q == qos_of(n),
{
    match n {
        0 => Qos::AtMostOnce,
        1 => Qos::AtLeastOnce,
        _ => Qos::ExactlyOnce,
    }
}

/// The bytes published for a payload given as JSON text: a JSON string goes
/// out as its UTF-8 text, anything else as its JSON encoding.
pub open spec fn payload_bytes_of(payload_json: Seq<char>) -> Seq<u8> {
    match json_string_value(payload_json) {
        Some(s) => encode_utf8(s),
        None => encode_utf8(payload_json),
    }
}

/// Best-effort encoding of a message payload into publishable bytes. The
/// payload is given as serde_json's compact text of the message's JSON
/// value, so a JSON string goes out as its characters and any other value as
/// that compact text.
pub fn payload_bytes(payload_json: &str) -> (b: Vec<u8>)
    ensures
        b@ == payload_bytes_of(payload_json@),
{
    match parse_json_string(payload_json) {
        Some(s) => slice_to_vec(s.as_str().as_bytes()),
        None => slice_to_vec(payload_json.as_bytes()),
    }
}

/// What a client session is opened with.
pub struct ConnectSettings {
    pub client_id: String,
    pub host: String,
    pub port: u16,
    pub keep_alive_secs: u64,
    /// User name and password, where both are set and the name is not empty.
    pub credentials: Option<(String, String)>,
}

/// The capacity of a session's request channel.
pub const REQUEST_CAPACITY: usize = 64;

/// The settings a client node at `path` connects with: its configured client
/// id, or its own path where none is configured; credentials only where a
/// non-empty user name and a password are both configured.
pub fn connect_settings(path: &String, cfg: &ClientConfig) -> (s: ConnectSettings)
    ensures
        s.client_id@ == (if cfg.client_id@.len() == 0 {
            path@
        } else {
            cfg.client_id@
        }),
        s.host@ == cfg.host@,
        s.port == cfg.port,
        s.keep_alive_secs == cfg.keep_alive_secs,
        match (cfg.username, cfg.password) {
            (Some(u), Some(p)) => if u@.len() > 0 {
                s.credentials matches Some(c) && c.0@ == u@ && c.1@ == p@
            } else {
                s.credentials is None
            },
            _ => s.credentials is None,
        },
{
    let client_id = if cfg.client_id.as_str().is_empty() {
        path.clone()
    } else {
        cfg.client_id.clone()
    };
    let credentials = match (&cfg.username, &cfg.password) {
        (Some(u), Some(p)) => {
            if !u.as_str().is_empty() {
                Some((u.clone(), p.clone()))
            } else {
                None
            }
        },
        _ => None,
    };
    ConnectSettings {
        client_id,
        host: cfg.host.clone(),
        port: cfg.port,
        keep_alive_secs: cfg.keep_alive_secs,
        credentials,
    }
}

/// The client id held by `rumqttc` options (what `MqttOptions::client_id`
/// returns).
pub uninterp spec fn options_client_id(o: MqttOptions) -> Seq<char>;

/// The broker host and port held by `rumqttc` options (what
/// `MqttOptions::broker_address` returns).
pub uninterp spec fn options_broker(o: MqttOptions) -> (Seq<char>, u16);

/// The keep-alive interval held by `rumqttc` options, as whole seconds and
/// nanoseconds (what `MqttOptions::keep_alive` returns).
pub uninterp spec fn options_keep_alive(o: MqttOptions) -> (u64, u32);

/// The user name and password held by `rumqttc` options (what
/// `MqttOptions::credentials` returns).
pub uninterp spec fn options_credentials(o: MqttOptions) -> Option<(Seq<char>, Seq<char>)>;

/// Calls `rumqttc::MqttOptions::new`. The source sets the given client id,
/// host and port, a keep-alive of 60 seconds and no credentials.
#[verifier::external_body]
fn new_mqtt_options(client_id: String, host: String, port: u16) -> (o: MqttOptions)
    ensures
        options_client_id(o) == client_id@,
        options_broker(o) == (host@, port),
        options_keep_alive(o) == (60u64, 0u32),
        options_credentials(o) is None,
{
    MqttOptions::new(client_id, host, port)
}

/// Calls `MqttOptions::set_keep_alive` with a whole number of seconds (it
/// panics only on a non-zero duration under one second, which whole seconds
/// never are). Only the keep-alive changes.
#[verifier::external_body]
fn set_keep_alive_secs(opts: &mut MqttOptions, secs: u64)
    ensures
        options_keep_alive(*final(opts)) == (secs, 0u32),
        options_client_id(*final(opts)) == options_client_id(*old(opts)),
        options_broker(*final(opts)) == options_broker(*old(opts)),
        options_credentials(*final(opts)) == options_credentials(*old(opts)),
{
    opts.set_keep_alive(std::time::Duration::from_secs(secs));
}

/// Calls `MqttOptions::set_credentials`. Only the credentials change.
#[verifier::external_body]
fn set_credentials(opts: &mut MqttOptions, username: String, password: String)
    ensures
        options_credentials(*final(opts)) == Some((username@, password@)),
        options_client_id(*final(opts)) == options_client_id(*old(opts)),
        options_broker(*final(opts)) == options_broker(*old(opts)),
        options_keep_alive(*final(opts)) == options_keep_alive(*old(opts)),
{
    opts.set_credentials(username, password);
}

/// The credentials of connection settings, as text.
pub open spec fn credentials_view(c: Option<(String, String)>) -> Option<(Seq<char>, Seq<char>)> {
    match c {
        Some((u, p)) => Some((u@, p@)),
        None => None,
    }
}

/// Builds the `rumqttc` options for a client session from its settings:
/// they hold its client id, broker, keep-alive and credentials.
pub fn mqtt_options(settings: ConnectSettings) -> (o: MqttOptions)
    ensures
        options_client_id(o) == settings.client_id@,
        options_broker(o) == (settings.host@, settings.port),
        options_keep_alive(o) == (settings.keep_alive_secs, 0u32),
        options_credentials(o) == credentials_view(settings.credentials),
{
    let ConnectSettings { client_id, host, port, keep_alive_secs, credentials } = settings;
    let mut opts = new_mqtt_options(client_id, host, port);
    set_keep_alive_secs(&mut opts, keep_alive_secs);
    if let Some((username, password)) = credentials {
        set_credentials(&mut opts, username, password);
    }
    opts
}

/// A publish a pub node issues once it is accepted.
pub struct PublishRequest {
    /// The client node whose session publishes.
    pub parent_path: String,
    pub topic: String,
    pub qos: Qos,
    pub retain: bool,
    pub payload: Vec<u8>,
}

/// A subscription a sub node asks for.
pub struct SubscribeRequest {
    /// The client node whose session subscribes.
    pub parent_path: String,
    pub topic: String,
    pub qos: Qos,
}

impl Client {
    /// A client has no input ports.
    pub fn on_message(&self) -> (r: Result<(), NodeError>)
        ensures
            r is Ok,
    {
        Ok(())
    }
}

impl Publish {
    /// Accepts a message on `in` and turns it into a publish on the parent
    /// client's session.
    ///
    /// `config` is the outcome of decoding the node's settings and
    /// `parent_path` the node's parent, where it has one.
    pub fn on_message(
        &self,
        port: &str,
        config: Result<PublishConfig, String>,
        parent_path: Option<String>,
        payload_json: &str,
    ) -> (r: Result<PublishRequest, NodeError>)
        ensures
            port@ != "in"@ ==> (r matches Err(e) && is_runtime_error(
                e,
                "unexpected port `"@ + port@ + "`"@,
            )),
            port@ == "in"@ ==> match config {
                Err(e) => r matches Err(NodeError::InvalidConfig(m)) && m@ == e@,
                Ok(cfg) => if cfg.topic@.len() == 0 {
                    r matches Err(e) && is_runtime_error(e, "pub node has no topic configured"@)
                } else {
                    match parent_path {
                        None => r matches Err(e) && is_runtime_error(
                            e,
                            "pub node must live under a client — has no parent"@,
                        ),
                        Some(p) => r matches Ok(q) && q.parent_path@ == p@ && q.topic@
                            == cfg.topic@ && q.qos == qos_of(cfg.qos) && q.retain == cfg.retain
                            && q.payload@ == payload_bytes_of(payload_json@),
                    }
                },
            },
    {
        if !text_eq(port, "in") {
            return Err(runtime_error(concat3("unexpected port `", port, "`")));
        }
        let cfg = match config {
            Ok(c) => c,
            Err(e) => return Err(NodeError::InvalidConfig(e)),
        };
        if cfg.topic.as_str().is_empty() {
            return Err(runtime_error(String::from_str("pub node has no topic configured")));
        }
        let parent_path = match parent_path {
            Some(p) => p,
            None => return Err(
                runtime_error(String::from_str("pub node must live under a client — has no parent")),
            ),
        };
        let qos = parse_qos(cfg.qos);
        let payload = payload_bytes(payload_json);
        Ok(PublishRequest { parent_path, topic: cfg.topic, qos, retain: cfg.retain, payload })
    }
}

impl Subscribe {
    /// On start: no subscription where no topic is configured; otherwise a
    /// subscription on the parent client's session.
    pub fn on_init(&self, cfg: &SubscribeConfig, parent_path: Option<String>) -> (r: Result<
        Option<SubscribeRequest>,
        NodeError,
    >)
        ensures
            cfg.topic@.len() == 0 ==> r matches Ok(None),
            cfg.topic@.len() != 0 ==> match parent_path {
                None => r matches Err(e) && is_runtime_error(
                    e,
                    "sub node must live under a client — has no parent"@,
                ),
                Some(p) => r matches Ok(Some(q)) && q.parent_path@ == p@ && q.topic@ == cfg.topic@
                    && q.qos == qos_of(cfg.qos),
            },
    {
        if cfg.topic.as_str().is_empty() {
            return Ok(None);
        }
        let parent_path = match parent_path {
            Some(p) => p,
            None => return Err(
                runtime_error(String::from_str("sub node must live under a client — has no parent")),
            ),
        };
        Ok(Some(SubscribeRequest { parent_path, topic: cfg.topic.clone(), qos: parse_qos(cfg.qos) }))
    }

    /// A sub node has no inputs.
    pub fn on_message(&self) -> (r: Result<(), NodeError>)
        ensures
            r is Ok,
    {
        Ok(())
    }
}

} // verus!
