//! The messaging client: its enumerated settings, its configuration, its
//! lifecycle state machine, and the spec-level model that contracts speak of.

use vstd::prelude::*;

verus! {

/// Whether a client drives inbound (`Consumer`) or outbound (`Producer`)
/// traffic. Fixed when the instance is created.
#[derive(Clone, Copy, Debug, PartialEq, Eq, Structural)]
pub enum ConnectionType {
    Consumer,
    Producer,
}

/// Point-to-point (`Queue`) versus publish/subscribe (`Topic`) destination
/// semantics.
#[derive(Clone, Copy, Debug, PartialEq, Eq, Structural)]
pub enum PipelineType {
    Queue,
    Topic,
}

/// Durability requested from the broker for produced messages.
#[derive(Clone, Copy, Debug, PartialEq, Eq, Structural)]
pub enum DeliveryMode {
    Persistent,
    NonPersistent,
}

/// Lifecycle of one messaging client. A non-empty last-error may overlay any
/// state without changing it.
#[derive(Clone, Copy, Debug, PartialEq, Eq, Structural)]
pub enum Lifecycle {
    Unconfigured,
    Configured,
    Running,
    Closed,
}

/// The code a host hands in for a connection type: zero selects `Consumer`,
/// every other value selects `Producer`.
pub open spec fn connection_type_of_code(code: i32) -> ConnectionType {
    if code == 0 {
        ConnectionType::Consumer
    } else {
        ConnectionType::Producer
    }
}

/// Maps a host-supplied connection-type code to the enumeration.
pub fn connection_type_from_code(code: i32) -> (t: ConnectionType)
    ensures
        t == connection_type_of_code(code),
{
    if code == 0 {
        ConnectionType::Consumer
    } else {
        ConnectionType::Producer
    }
}

/// The code a host hands in for a pipeline type: zero selects `Queue`, every
/// other value selects `Topic`.
pub open spec fn pipeline_type_of_code(code: i32) -> PipelineType {
    if code == 0 {
        PipelineType::Queue
    } else {
        PipelineType::Topic
    }
}

/// Maps a host-supplied pipeline-type code to the enumeration.
pub fn pipeline_type_from_code(code: i32) -> (t: PipelineType)
    ensures
        t == pipeline_type_of_code(code),
{
    if code == 0 {
        PipelineType::Queue
    } else {
        PipelineType::Topic
    }
}

/// The code a host hands in for a delivery mode: zero selects `Persistent`,
/// every other value selects `NonPersistent`.
pub open spec fn delivery_mode_of_code(code: i32) -> DeliveryMode {
    if code == 0 {
        DeliveryMode::Persistent
    } else {
        DeliveryMode::NonPersistent
    }
}

/// Maps a host-supplied delivery-mode code to the enumeration.
pub fn delivery_mode_from_code(code: i32) -> (m: DeliveryMode)
    ensures
        m == delivery_mode_of_code(code),
{
    if code == 0 {
        DeliveryMode::Persistent
    } else {
        DeliveryMode::NonPersistent
    }
}

/// Connection settings of one client, each set once before the client is run.
pub struct ClientConfig {
    pub broker_uri: String,
    pub username: String,
    pub password: String,
    pub destination: String,
    pub pipeline_type: PipelineType,
    pub delivery_mode: DeliveryMode,
    pub transacted: bool,
}

/// Mathematical view of a configuration: text fields as character sequences.
#[verifier::ext_equal]
pub ghost struct ConfigModel {
    pub broker_uri: Seq<char>,
    pub username: Seq<char>,
    pub password: Seq<char>,
    pub destination: Seq<char>,
    pub pipeline_type: PipelineType,
    pub delivery_mode: DeliveryMode,
    pub transacted: bool,
}

impl View for ClientConfig {
    type V = ConfigModel;

    open spec fn view(&self) -> ConfigModel {
        ConfigModel {
            broker_uri: self.broker_uri@,
            username: self.username@,
            password: self.password@,
            destination: self.destination@,
            pipeline_type: self.pipeline_type,
            delivery_mode: self.delivery_mode,
            transacted: self.transacted,
        }
    }
}

/// The configuration a freshly created client starts from: empty text fields,
/// queue semantics, persistent delivery, no transactions.
pub open spec fn default_config_model() -> ConfigModel {
    ConfigModel {
        broker_uri: Seq::empty(),
        username: Seq::empty(),
        password: Seq::empty(),
        destination: Seq::empty(),
        pipeline_type: PipelineType::Queue,
        delivery_mode: DeliveryMode::Persistent,
        transacted: false,
    }
}

/// Builds the default configuration of a fresh client.
pub fn default_config() -> (c: ClientConfig)
    ensures
        c@ == default_config_model(),
{
    ClientConfig {
        broker_uri: String::new(),
        username: String::new(),
        password: String::new(),
        destination: String::new(),
        pipeline_type: PipelineType::Queue,
        delivery_mode: DeliveryMode::Persistent,
        transacted: false,
    }
}

/// One messaging client as the registry owns it: its fixed connection type,
/// its configuration, its lifecycle state, the most recent failure text
/// (sticky: overwritten only by the next failure), and the identifier of the
/// host-side message handler, if one is registered.
pub struct Client {
    pub connection_type: ConnectionType,
    pub config: ClientConfig,
    pub state: Lifecycle,
    pub last_error: String,
    pub handler: Option<u64>,
}

/// Mathematical view of one client.
#[verifier::ext_equal]
pub ghost struct ClientModel {
    pub connection_type: ConnectionType,
    pub config: ConfigModel,
    pub state: Lifecycle,
    pub last_error: Seq<char>,
    pub handler: Option<u64>,
}

impl View for Client {
    type V = ClientModel;

    open spec fn view(&self) -> ClientModel {
        ClientModel {
            connection_type: self.connection_type,
            config: self.config@,
            state: self.state,
            last_error: self.last_error@,
            handler: self.handler,
        }
    }
}

/// The client a new instance starts as: unconfigured, default settings, no
/// recorded error, no handler.
pub open spec fn fresh_client_model(code: i32) -> ClientModel {
    ClientModel {
        connection_type: connection_type_of_code(code),
        config: default_config_model(),
        state: Lifecycle::Unconfigured,
        last_error: Seq::empty(),
        handler: None,
    }
}

} // verus!
