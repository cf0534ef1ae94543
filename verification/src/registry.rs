//! The handle registry: a table that exclusively owns every messaging client,
//! keyed by opaque integer handles that are never reused while the referenced
//! client is registered, together with the queue of inbound notifications
//! waiting for the host to drain.
//!
//! Every operation that a host may invoke degrades to a `false` success flag
//! (or an empty string) when the handle does not resolve or the operation is
//! not legal in the client's current lifecycle state; nothing here panics.
//! The blocking broker calls themselves are the embedding layer's work: it
//! asks the registry for the connect configuration or the produce command,
//! performs the call, and hands the outcome back, so the registry's record of
//! every client is exact for every possible outcome.
//!
//! Policies, fixed here and relied on by the contracts:
//! - the last-error text is sticky: a successful operation never clears it;
//! - configuration setters invoked while a client is `Running` or `Closed`
//!   are rejected with `false` and leave the configuration untouched;
//! - `close` keeps the entry, in the `Closed` state, so the handle is never
//!   reused and a later `get_last_error` still answers.

use vstd::prelude::*;

use crate::client::Client;
use crate::client::ClientConfig;
use crate::client::ClientModel;
use crate::client::ConfigModel;
use crate::client::ConnectionType;
use crate::client::DeliveryMode;
use crate::client::Lifecycle;
use crate::client::PipelineType;
use crate::client::connection_type_from_code;
use crate::client::default_config;
use crate::client::delivery_mode_from_code;
use crate::client::delivery_mode_of_code;
use crate::client::fresh_client_model;
use crate::client::pipeline_type_from_code;
use crate::client::pipeline_type_of_code;

verus! {

/// One inbound message notification, queued for the host: the handle it
/// arrived for, the identifier of the handler registered at arrival time, and
/// the message body.
pub struct Delivery {
    pub handle: usize,
    pub handler: u64,
    pub body: String,
}

/// Mathematical view of a queued notification.
#[verifier::ext_equal]
pub ghost struct DeliveryModel {
    pub handle: usize,
    pub handler: u64,
    pub body: Seq<char>,
}

impl View for Delivery {
    type V = DeliveryModel;

    open spec fn view(&self) -> DeliveryModel {
        DeliveryModel { handle: self.handle, handler: self.handler, body: self.body@ }
    }
}

/// Everything the broker needs to produce one message: the body and priority
/// the host supplied, and the delivery mode the client was configured with.
pub struct ProduceCommand {
    pub body: String,
    pub priority: i32,
    pub delivery_mode: DeliveryMode,
}

/// Mathematical view of a produce command.
#[verifier::ext_equal]
pub ghost struct ProduceCommandModel {
    pub body: Seq<char>,
    pub priority: i32,
    pub delivery_mode: DeliveryMode,
}

impl View for ProduceCommand {
    type V = ProduceCommandModel;

    open spec fn view(&self) -> ProduceCommandModel {
        ProduceCommandModel {
            body: self.body@,
            priority: self.priority,
            delivery_mode: self.delivery_mode,
        }
    }
}

/// The error text recorded when an operation is invoked in a lifecycle state
/// that does not allow it.
pub open spec fn illegal_state_text() -> Seq<char> {
    "operation not legal in the current state"@
}

/// The error text recorded when `run` is attempted before `init`.
pub open spec fn not_initialized_text() -> Seq<char> {
    "messaging library is not initialized"@
}

/// The error text recorded when a send is attempted on a consumer client.
pub open spec fn not_producer_text() -> Seq<char> {
    "sending requires a producer connection"@
}

/// The error text recorded when a message handler is registered on a producer
/// client.
pub open spec fn not_consumer_text() -> Seq<char> {
    "message callbacks require a consumer connection"@
}

fn illegal_state_message() -> (m: String)
    ensures
        m@ == illegal_state_text(),
{
    "operation not legal in the current state".to_owned()
}

fn not_initialized_message() -> (m: String)
    ensures
        m@ == not_initialized_text(),
{
    "messaging library is not initialized".to_owned()
}

fn not_producer_message() -> (m: String)
    ensures
        m@ == not_producer_text(),
{
    "sending requires a producer connection".to_owned()
}

fn not_consumer_message() -> (m: String)
    ensures
        m@ == not_consumer_text(),
{
    "message callbacks require a consumer connection".to_owned()
}

/// The outcome of a native broker call, as the registry's contracts see it:
/// success, or failure with the broker's error text.
pub open spec fn outcome_view(o: Result<(), String>) -> Result<(), Seq<char>> {
    match o {
        Ok(_) => Ok(()),
        Err(e) => Err(e@),
    }
}

/// View of an optional configuration snapshot.
pub open spec fn opt_config_view(o: Option<ClientConfig>) -> Option<ConfigModel> {
    match o {
        Some(c) => Some(c@),
        None => None,
    }
}

/// View of an optional produce command.
pub open spec fn opt_produce_view(o: Option<ProduceCommand>) -> Option<ProduceCommandModel> {
    match o {
        Some(c) => Some(c@),
        None => None,
    }
}

/// The registry. Handle `h` refers to the `h - 1`-th client ever created;
/// entries are kept (in the `Closed` state) rather than removed, so a handle
/// value is never reused.
pub struct Registry {
    initialized: bool,
    clients: Vec<Client>,
    pending: Vec<Delivery>,
}

/// Mathematical view of the whole registry.
#[verifier::ext_equal]
pub ghost struct RegistryModel {
    pub initialized: bool,
    pub clients: Seq<ClientModel>,
    pub pending: Seq<DeliveryModel>,
}

impl View for Registry {
    type V = RegistryModel;

    closed spec fn view(&self) -> RegistryModel {
        RegistryModel {
            initialized: self.initialized,
            clients: self.clients@.map_values(|c: Client| c@),
            pending: self.pending@.map_values(|d: Delivery| d@),
        }
    }
}

impl RegistryModel {
    /// The registry as it starts: not initialized, no clients, no queued
    /// notifications.
    pub open spec fn empty() -> RegistryModel {
        RegistryModel { initialized: false, clients: Seq::empty(), pending: Seq::empty() }
    }

    /// Whether `h` was issued by an instance creation on this registry.
    pub open spec fn valid_handle(self, h: usize) -> bool {
        1 <= h && h <= self.clients.len()
    }

    /// The client `h` refers to.
    pub open spec fn client(self, h: usize) -> ClientModel {
        self.clients[h as int - 1]
    }

    /// This registry with the client of `h` replaced.
    pub open spec fn with_client(self, h: usize, c: ClientModel) -> RegistryModel {
        RegistryModel { clients: self.clients.update(h as int - 1, c), ..self }
    }

    /// This registry with an error text recorded on the client of `h`.
    pub open spec fn with_error(self, h: usize, e: Seq<char>) -> RegistryModel {
        self.with_client(h, ClientModel { last_error: e, ..self.client(h) })
    }

    /// Whether the client of `h` may still be configured: only before it has
    /// been run or closed.
    pub open spec fn configurable(self, h: usize) -> bool {
        self.valid_handle(h) && (self.client(h).state == Lifecycle::Unconfigured
            || self.client(h).state == Lifecycle::Configured)
    }

    /// Whether `run` may attempt to connect the client of `h`.
    pub open spec fn run_legal(self, h: usize) -> bool {
        self.configurable(h) && self.initialized
    }

    /// Whether a send may be attempted on the client of `h`: only a running
    /// producer.
    pub open spec fn send_legal(self, h: usize) -> bool {
        self.valid_handle(h) && self.client(h).connection_type == ConnectionType::Producer
            && self.client(h).state == Lifecycle::Running
    }

    /// Whether a message handler may be registered on the client of `h`: only
    /// a consumer that is not closed.
    pub open spec fn callback_legal(self, h: usize) -> bool {
        self.valid_handle(h) && self.client(h).connection_type == ConnectionType::Consumer
            && self.client(h).state != Lifecycle::Closed
    }

    /// Whether an inbound notification for `h` is kept rather than dropped: the
    /// handle resolves, the client is running, and a handler is registered.
    pub open spec fn notify_legal(self, h: usize) -> bool {
        self.valid_handle(h) && self.client(h).state == Lifecycle::Running
            && self.client(h).handler is Some
    }

    /// Whether every client has been closed.
    pub open spec fn all_closed(self) -> bool {
        forall|i: int|
            0 <= i < self.clients.len() ==> (#[trigger] self.clients[i]).state == Lifecycle::Closed
    }

    /// The registry invariant: while the messaging library is not initialized,
    /// no client is running.
    pub open spec fn wf(self) -> bool {
        !self.initialized ==> forall|i: int|
            0 <= i < self.clients.len() ==> (#[trigger] self.clients[i]).state != Lifecycle::Running
    }

    /// Effect of `init`.
    pub open spec fn init_step(self) -> RegistryModel {
        RegistryModel { initialized: true, ..self }
    }

    /// Effect of `fini`: teardown happens only once every client is closed.
    pub open spec fn fini_step(self) -> RegistryModel {
        if self.all_closed() {
            RegistryModel { initialized: false, ..self }
        } else {
            self
        }
    }

    /// The handle the next instance creation returns.
    pub open spec fn fresh_handle(self) -> int {
        self.clients.len() as int + 1
    }

    /// Effect of `new_instance`.
    pub open spec fn new_instance_step(self, code: i32) -> RegistryModel {
        RegistryModel { clients: self.clients.push(fresh_client_model(code)), ..self }
    }

    /// Effect of `run` under a given connect outcome: on success the client is
    /// running; on failure it keeps its state and records the broker's error;
    /// when the operation is not legal the reason is recorded instead and the
    /// outcome is irrelevant.
    pub open spec fn run_step(self, h: usize, o: Result<(), Seq<char>>) -> RegistryModel {
        if !self.valid_handle(h) {
            self
        } else if !self.initialized {
            self.with_error(h, not_initialized_text())
        } else if !self.configurable(h) {
            self.with_error(h, illegal_state_text())
        } else {
            match o {
                Ok(_) => self.with_client(h, ClientModel { state: Lifecycle::Running, ..self.client(h) }),
                Err(e) => self.with_error(h, e),
            }
        }
    }

    /// Success flag of `run`.
    pub open spec fn run_result(self, h: usize, o: Result<(), Seq<char>>) -> bool {
        self.run_legal(h) && o is Ok
    }

    /// Effect of `send_message` under a given produce outcome. A consumer can
    /// never send, whatever its state.
    pub open spec fn send_step(self, h: usize, o: Result<(), Seq<char>>) -> RegistryModel {
        if !self.valid_handle(h) {
            self
        } else if self.client(h).connection_type == ConnectionType::Consumer {
            self.with_error(h, not_producer_text())
        } else if self.client(h).state != Lifecycle::Running {
            self.with_error(h, illegal_state_text())
        } else {
            match o {
                Ok(_) => self,
                Err(e) => self.with_error(h, e),
            }
        }
    }

    /// Success flag of `send_message`.
    pub open spec fn send_result(self, h: usize, o: Result<(), Seq<char>>) -> bool {
        self.send_legal(h) && o is Ok
    }

    /// Effect of `close`: from any state the client ends closed; closing an
    /// absent handle changes nothing.
    pub open spec fn close_step(self, h: usize) -> RegistryModel {
        if self.valid_handle(h) {
            self.with_client(h, ClientModel { state: Lifecycle::Closed, ..self.client(h) })
        } else {
            self
        }
    }

    /// What `get_last_error` answers: the recorded text, or empty when the
    /// handle does not resolve.
    pub open spec fn last_error_view(self, h: usize) -> Seq<char> {
        if self.valid_handle(h) {
            self.client(h).last_error
        } else {
            Seq::empty()
        }
    }

    /// Shared effect of every configuration setter: install the new
    /// configuration and mark the client configured, or record why not.
    pub open spec fn config_step(self, h: usize, cfg: ConfigModel) -> RegistryModel {
        if !self.valid_handle(h) {
            self
        } else if !self.configurable(h) {
            self.with_error(h, illegal_state_text())
        } else {
            self.with_client(
                h,
                ClientModel { state: Lifecycle::Configured, config: cfg, ..self.client(h) },
            )
        }
    }

    /// Effect of `set_broker_uri`.
    pub open spec fn set_broker_uri_step(self, h: usize, v: Seq<char>) -> RegistryModel {
        self.config_step(h, ConfigModel { broker_uri: v, ..self.client(h).config })
    }

    /// Effect of `set_username`.
    pub open spec fn set_username_step(self, h: usize, v: Seq<char>) -> RegistryModel {
        self.config_step(h, ConfigModel { username: v, ..self.client(h).config })
    }

    /// Effect of `set_password`.
    pub open spec fn set_password_step(self, h: usize, v: Seq<char>) -> RegistryModel {
        self.config_step(h, ConfigModel { password: v, ..self.client(h).config })
    }

    /// Effect of `set_queue_or_topic_name`.
    pub open spec fn set_destination_step(self, h: usize, v: Seq<char>) -> RegistryModel {
        self.config_step(h, ConfigModel { destination: v, ..self.client(h).config })
    }

    /// Effect of `set_pipeline_type`.
    pub open spec fn set_pipeline_type_step(self, h: usize, t: PipelineType) -> RegistryModel {
        self.config_step(h, ConfigModel { pipeline_type: t, ..self.client(h).config })
    }

    /// Effect of `set_delivery_mode`.
    pub open spec fn set_delivery_mode_step(self, h: usize, m: DeliveryMode) -> RegistryModel {
        self.config_step(h, ConfigModel { delivery_mode: m, ..self.client(h).config })
    }

    /// Effect of `set_session_transacted_mode`.
    pub open spec fn set_transacted_step(self, h: usize, b: bool) -> RegistryModel {
        self.config_step(h, ConfigModel { transacted: b, ..self.client(h).config })
    }

    /// Success flag shared by every configuration setter.
    pub open spec fn set_result(self, h: usize) -> bool {
        self.configurable(h)
    }

    /// Effect of registering a message handler: it overwrites any previous
    /// one; a producer or a closed client records why it refused.
    pub open spec fn set_callback_step(self, h: usize, id: u64) -> RegistryModel {
        if !self.valid_handle(h) {
            self
        } else if self.client(h).connection_type != ConnectionType::Consumer {
            self.with_error(h, not_consumer_text())
        } else if self.client(h).state == Lifecycle::Closed {
            self.with_error(h, illegal_state_text())
        } else {
            self.with_client(h, ClientModel { handler: Some(id), ..self.client(h) })
        }
    }

    /// Effect of an inbound notification: appended to the queue when it is
    /// kept, dropped silently otherwise. Appending is what preserves
    /// per-client arrival order.
    pub open spec fn notify_step(self, h: usize, body: Seq<char>) -> RegistryModel {
        if self.notify_legal(h) {
            match self.client(h).handler {
                Some(id) => RegistryModel {
                    pending: self.pending.push(DeliveryModel { handle: h, handler: id, body }),
                    ..self
                },
                None => self,
            }
        } else {
            self
        }
    }

    /// What `connect_config` answers: the configuration `run` would connect
    /// with, when `run` is legal.
    pub open spec fn connect_view(self, h: usize) -> Option<ConfigModel> {
        if self.run_legal(h) {
            Some(self.client(h).config)
        } else {
            None
        }
    }

    /// What `produce_command` answers: the command the broker would be handed,
    /// when a send is legal.
    pub open spec fn produce_view(self, h: usize, body: Seq<char>, priority: i32) -> Option<
        ProduceCommandModel,
    > {
        if self.send_legal(h) {
            Some(
                ProduceCommandModel {
                    body,
                    priority,
                    delivery_mode: self.client(h).config.delivery_mode,
                },
            )
        } else {
            None
        }
    }
}

impl Registry {
    /// Creates an empty registry: not initialized, no clients, no queued
    /// notifications.
    pub fn new() -> (r: Registry)
        ensures
            r@ == RegistryModel::empty(),
    {
        let r = Registry { initialized: false, clients: Vec::new(), pending: Vec::new() };
        proof {
            assert(r@ =~= RegistryModel::empty());
        }
        r
    }

    /// How many instances were ever created; handles `1 ..= instance_count()`
    /// are exactly the valid ones.
    pub fn instance_count(&self) -> (n: usize)
        ensures
            n == self@.clients.len(),
    {
        self.clients.len()
    }

    /// One-time setup of the messaging library, as the registry records it.
    /// Always succeeds; running it again is harmless.
    pub fn init(&mut self) -> (r: bool)
        ensures
            final(self)@ == old(self)@.init_step(),
            r,
    {
        self.initialized = true;
        proof {
            assert(self@ =~= old(self)@.init_step());
        }
        true
    }

    /// Process-wide teardown. Refused — `false`, nothing changed — while any
    /// client is not yet closed.
    pub fn fini(&mut self) -> (r: bool)
        ensures
            final(self)@ == old(self)@.fini_step(),
            r == old(self)@.all_closed(),
    {
        let n = self.clients.len();
        let mut i: usize = 0;
        while i < n
            invariant
                n == self.clients.len(),
                i <= n,
                *self == *old(self),
                forall|j: int|
                    0 <= j < i ==> (#[trigger] self@.clients[j]).state == Lifecycle::Closed,
            decreases n - i,
        {
            if !(self.clients[i].state == Lifecycle::Closed) {
                proof {
                    assert(old(self)@.clients[i as int].state != Lifecycle::Closed);
                    assert(!old(self)@.all_closed());
                }
                return false;
            }
            i += 1;
        }
        self.initialized = false;
        proof {
            assert(old(self)@.all_closed());
            assert(self@ =~= old(self)@.fini_step());
        }
        true
    }

    /// Creates a messaging client with the given connection-type code (zero:
    /// consumer; anything else: producer), owns it, and returns its handle — a
    /// value that no earlier creation returned.
    pub fn new_instance(&mut self, code: i32) -> (h: usize)
        requires
            old(self)@.clients.len() < usize::MAX,
        ensures
            final(self)@ == old(self)@.new_instance_step(code),
            h as int == old(self)@.fresh_handle(),
            final(self)@.valid_handle(h),
            !old(self)@.valid_handle(h),
    {
        let h = self.clients.len() + 1;
        self.clients.push(
            Client {
                connection_type: connection_type_from_code(code),
                config: default_config(),
                state: Lifecycle::Unconfigured,
                last_error: String::new(),
                handler: None,
            },
        );
        proof {
            assert(self@.clients =~= old(self)@.clients.push(fresh_client_model(code)));
            assert(self@ =~= old(self)@.new_instance_step(code));
        }
        h
    }

    /// The configuration `run` would hand the broker for this handle, or
    /// `None` when `run` is not legal now.
    pub fn connect_config(&self, handle: usize) -> (r: Option<ClientConfig>)
        ensures
            opt_config_view(r) == self@.connect_view(handle),
    {
        if handle == 0 || handle > self.clients.len() {
            return None;
        }
        if !self.initialized {
            return None;
        }
        let c = &self.clients[handle - 1];
        if c.state == Lifecycle::Unconfigured || c.state == Lifecycle::Configured {
            Some(
                ClientConfig {
                    broker_uri: c.config.broker_uri.clone(),
                    username: c.config.username.clone(),
                    password: c.config.password.clone(),
                    destination: c.config.destination.clone(),
                    pipeline_type: c.config.pipeline_type,
                    delivery_mode: c.config.delivery_mode,
                    transacted: c.config.transacted,
                },
            )
        } else {
            None
        }
    }

    /// Records the outcome of the connect attempt that `run` stands for: on
    /// `Ok` the client is running; on `Err` it keeps its state and the error
    /// text; when the handle does not resolve or the client cannot be run,
    /// the outcome is ignored and the call reports `false`.
    pub fn run(&mut self, handle: usize, outcome: Result<(), String>) -> (r: bool)
        ensures
            final(self)@ == old(self)@.run_step(handle, outcome_view(outcome)),
            r == old(self)@.run_result(handle, outcome_view(outcome)),
    {
        if handle == 0 || handle > self.clients.len() {
            return false;
        }
        let i = handle - 1;
        if !self.initialized {
            let msg = not_initialized_message();
            let c = &mut self.clients[i];
            c.last_error = msg;
            proof {
                assert(self@ =~= old(self)@.run_step(handle, outcome_view(outcome)));
            }
            return false;
        }
        let c = &mut self.clients[i];
        if !(c.state == Lifecycle::Unconfigured || c.state == Lifecycle::Configured) {
            c.last_error = illegal_state_message();
            proof {
                assert(self@ =~= old(self)@.run_step(handle, outcome_view(outcome)));
            }
            return false;
        }
        match outcome {
            Ok(_) => {
                c.state = Lifecycle::Running;
                proof {
                    assert(self@ =~= old(self)@.run_step(handle, outcome_view(outcome)));
                }
                true
            },
            Err(e) => {
                c.last_error = e;
                proof {
                    assert(self@ =~= old(self)@.run_step(handle, outcome_view(outcome)));
                }
                false
            },
        }
    }

    /// The produce command a send on this handle would hand the broker —
    /// the host's body and priority, under the client's delivery mode — or
    /// `None` when a send is not legal now.
    pub fn produce_command(&self, handle: usize, body: &str, priority: i32) -> (r: Option<
        ProduceCommand,
    >)
        ensures
            opt_produce_view(r) == self@.produce_view(handle, body@, priority),
    {
        if handle == 0 || handle > self.clients.len() {
            return None;
        }
        let c = &self.clients[handle - 1];
        if c.connection_type == ConnectionType::Producer && c.state == Lifecycle::Running {
            Some(
                ProduceCommand {
                    body: body.to_owned(),
                    priority,
                    delivery_mode: c.config.delivery_mode,
                },
            )
        } else {
            None
        }
    }

    /// Records the outcome of the produce attempt that a send stands for. A
    /// consumer can never send — the call reports `false` in every state —
    /// and a producer only while running; an `Err` outcome is copied into the
    /// client's last error.
    pub fn send_message(&mut self, handle: usize, outcome: Result<(), String>) -> (r: bool)
        ensures
            final(self)@ == old(self)@.send_step(handle, outcome_view(outcome)),
            r == old(self)@.send_result(handle, outcome_view(outcome)),
    {
        if handle == 0 || handle > self.clients.len() {
            return false;
        }
        let i = handle - 1;
        let c = &mut self.clients[i];
        if c.connection_type == ConnectionType::Consumer {
            c.last_error = not_producer_message();
            proof {
                assert(self@ =~= old(self)@.send_step(handle, outcome_view(outcome)));
            }
            return false;
        }
        if !(c.state == Lifecycle::Running) {
            c.last_error = illegal_state_message();
            proof {
                assert(self@ =~= old(self)@.send_step(handle, outcome_view(outcome)));
            }
            return false;
        }
        match outcome {
            Ok(_) => true,
            Err(e) => {
                c.last_error = e;
                proof {
                    assert(self@ =~= old(self)@.send_step(handle, outcome_view(outcome)));
                }
                false
            },
        }
    }

    /// Closes the client: legal from any state, idempotent, and the entry is
    /// kept so the handle still answers `get_last_error`. Reports `false`
    /// only for a handle that was never issued.
    pub fn close(&mut self, handle: usize) -> (r: bool)
        ensures
            final(self)@ == old(self)@.close_step(handle),
            r == old(self)@.valid_handle(handle),
    {
        if handle == 0 || handle > self.clients.len() {
            return false;
        }
        let i = handle - 1;
        let c = &mut self.clients[i];
        c.state = Lifecycle::Closed;
        proof {
            assert(self@ =~= old(self)@.close_step(handle));
        }
        true
    }

    /// The most recent failure recorded on the client, empty if none ever
    /// was; an unknown handle answers the empty string rather than failing.
    pub fn get_last_error(&self, handle: usize) -> (r: String)
        ensures
            r@ == self@.last_error_view(handle),
    {
        if handle == 0 || handle > self.clients.len() {
            let r = String::new();
            proof {
                assert(r@ =~= Seq::<char>::empty());
            }
            return r;
        }
        self.clients[handle - 1].last_error.clone()
    }

    /// Sets the broker URI. Legal until the client is run or closed; moves the
    /// client to the configured state.
    pub fn set_broker_uri(&mut self, handle: usize, value: &str) -> (r: bool)
        ensures
            final(self)@ == old(self)@.set_broker_uri_step(handle, value@),
            r == old(self)@.set_result(handle),
    {
        if handle == 0 || handle > self.clients.len() {
            return false;
        }
        let i = handle - 1;
        let c = &mut self.clients[i];
        if c.state == Lifecycle::Unconfigured || c.state == Lifecycle::Configured {
            c.config.broker_uri = value.to_owned();
            c.state = Lifecycle::Configured;
            proof {
                assert(self@ =~= old(self)@.set_broker_uri_step(handle, value@));
            }
            true
        } else {
            c.last_error = illegal_state_message();
            proof {
                assert(self@ =~= old(self)@.set_broker_uri_step(handle, value@));
            }
            false
        }
    }

    /// Sets the username presented to the broker. Legal until the client is
    /// run or closed.
    pub fn set_username(&mut self, handle: usize, value: &str) -> (r: bool)
        ensures
            final(self)@ == old(self)@.set_username_step(handle, value@),
            r == old(self)@.set_result(handle),
    {
        if handle == 0 || handle > self.clients.len() {
            return false;
        }
        let i = handle - 1;
        let c = &mut self.clients[i];
        if c.state == Lifecycle::Unconfigured || c.state == Lifecycle::Configured {
            c.config.username = value.to_owned();
            c.state = Lifecycle::Configured;
            proof {
                assert(self@ =~= old(self)@.set_username_step(handle, value@));
            }
            true
        } else {
            c.last_error = illegal_state_message();
            proof {
                assert(self@ =~= old(self)@.set_username_step(handle, value@));
            }
            false
        }
    }

    /// Sets the password presented to the broker. Legal until the client is
    /// run or closed.
    pub fn set_password(&mut self, handle: usize, value: &str) -> (r: bool)
        ensures
            final(self)@ == old(self)@.set_password_step(handle, value@),
            r == old(self)@.set_result(handle),
    {
        if handle == 0 || handle > self.clients.len() {
            return false;
        }
        let i = handle - 1;
        let c = &mut self.clients[i];
        if c.state == Lifecycle::Unconfigured || c.state == Lifecycle::Configured {
            c.config.password = value.to_owned();
            c.state = Lifecycle::Configured;
            proof {
                assert(self@ =~= old(self)@.set_password_step(handle, value@));
            }
            true
        } else {
            c.last_error = illegal_state_message();
            proof {
                assert(self@ =~= old(self)@.set_password_step(handle, value@));
            }
            false
        }
    }

    /// Sets the destination (queue or topic) name. Legal until the client is
    /// run or closed.
    pub fn set_queue_or_topic_name(&mut self, handle: usize, value: &str) -> (r: bool)
        ensures
            final(self)@ == old(self)@.set_destination_step(handle, value@),
            r == old(self)@.set_result(handle),
    {
        if handle == 0 || handle > self.clients.len() {
            return false;
        }
        let i = handle - 1;
        let c = &mut self.clients[i];
        if c.state == Lifecycle::Unconfigured || c.state == Lifecycle::Configured {
            c.config.destination = value.to_owned();
            c.state = Lifecycle::Configured;
            proof {
                assert(self@ =~= old(self)@.set_destination_step(handle, value@));
            }
            true
        } else {
            c.last_error = illegal_state_message();
            proof {
                assert(self@ =~= old(self)@.set_destination_step(handle, value@));
            }
            false
        }
    }

    /// Selects queue or topic semantics from the host's code (zero: queue;
    /// anything else: topic). Legal until the client is run or closed.
    pub fn set_pipeline_type(&mut self, handle: usize, code: i32) -> (r: bool)
        ensures
            final(self)@ == old(self)@.set_pipeline_type_step(handle, pipeline_type_of_code(code)),
            r == old(self)@.set_result(handle),
    {
        let t = pipeline_type_from_code(code);
        if handle == 0 || handle > self.clients.len() {
            return false;
        }
        let i = handle - 1;
        let c = &mut self.clients[i];
        if c.state == Lifecycle::Unconfigured || c.state == Lifecycle::Configured {
            c.config.pipeline_type = t;
            c.state = Lifecycle::Configured;
            proof {
                assert(self@ =~= old(self)@.set_pipeline_type_step(
                    handle,
                    pipeline_type_of_code(code),
                ));
            }
            true
        } else {
            c.last_error = illegal_state_message();
            proof {
                assert(self@ =~= old(self)@.set_pipeline_type_step(
                    handle,
                    pipeline_type_of_code(code),
                ));
            }
            false
        }
    }

    /// Selects the delivery mode from the host's code (zero: persistent;
    /// anything else: non-persistent). Legal until the client is run or
    /// closed.
    pub fn set_delivery_mode(&mut self, handle: usize, code: i32) -> (r: bool)
        ensures
            final(self)@ == old(self)@.set_delivery_mode_step(handle, delivery_mode_of_code(code)),
            r == old(self)@.set_result(handle),
    {
        let m = delivery_mode_from_code(code);
        if handle == 0 || handle > self.clients.len() {
            return false;
        }
        let i = handle - 1;
        let c = &mut self.clients[i];
        if c.state == Lifecycle::Unconfigured || c.state == Lifecycle::Configured {
            c.config.delivery_mode = m;
            c.state = Lifecycle::Configured;
            proof {
                assert(self@ =~= old(self)@.set_delivery_mode_step(
                    handle,
                    delivery_mode_of_code(code),
                ));
            }
            true
        } else {
            c.last_error = illegal_state_message();
            proof {
                assert(self@ =~= old(self)@.set_delivery_mode_step(
                    handle,
                    delivery_mode_of_code(code),
                ));
            }
            false
        }
    }

    /// Turns transacted sessions on or off. Legal until the client is run or
    /// closed.
    pub fn set_session_transacted_mode(&mut self, handle: usize, flag: bool) -> (r: bool)
        ensures
            final(self)@ == old(self)@.set_transacted_step(handle, flag),
            r == old(self)@.set_result(handle),
    {
        if handle == 0 || handle > self.clients.len() {
            return false;
        }
        let i = handle - 1;
        let c = &mut self.clients[i];
        if c.state == Lifecycle::Unconfigured || c.state == Lifecycle::Configured {
            c.config.transacted = flag;
            c.state = Lifecycle::Configured;
            proof {
                assert(self@ =~= old(self)@.set_transacted_step(handle, flag));
            }
            true
        } else {
            c.last_error = illegal_state_message();
            proof {
                assert(self@ =~= old(self)@.set_transacted_step(handle, flag));
            }
            false
        }
    }

    /// Registers the host-side message handler (by the identifier the host
    /// assigned it), silently replacing any previous one. Legal only for a
    /// consumer that is not closed.
    pub fn set_on_message_recieved_callback(&mut self, handle: usize, handler: u64) -> (r: bool)
        ensures
            final(self)@ == old(self)@.set_callback_step(handle, handler),
            r == old(self)@.callback_legal(handle),
    {
        if handle == 0 || handle > self.clients.len() {
            return false;
        }
        let i = handle - 1;
        let c = &mut self.clients[i];
        if !(c.connection_type == ConnectionType::Consumer) {
            c.last_error = not_consumer_message();
            proof {
                assert(self@ =~= old(self)@.set_callback_step(handle, handler));
            }
            return false;
        }
        if c.state == Lifecycle::Closed {
            c.last_error = illegal_state_message();
            proof {
                assert(self@ =~= old(self)@.set_callback_step(handle, handler));
            }
            return false;
        }
        c.handler = Some(handler);
        proof {
            assert(self@ =~= old(self)@.set_callback_step(handle, handler));
        }
        true
    }

    /// Accepts one inbound message notification from the broker's delivery
    /// side. It is queued — preserving arrival order — when the handle
    /// resolves to a running client with a registered handler, and dropped
    /// silently otherwise; the flag reports which happened.
    pub fn notify(&mut self, handle: usize, body: &str) -> (r: bool)
        ensures
            final(self)@ == old(self)@.notify_step(handle, body@),
            r == old(self)@.notify_legal(handle),
    {
        if handle == 0 || handle > self.clients.len() {
            return false;
        }
        let i = handle - 1;
        let st = self.clients[i].state;
        if !(st == Lifecycle::Running) {
            return false;
        }
        let hd = self.clients[i].handler;
        match hd {
            Some(id) => {
                self.pending.push(Delivery { handle, handler: id, body: body.to_owned() });
                proof {
                    assert(self@ =~= old(self)@.notify_step(handle, body@));
                }
                true
            },
            None => false,
        }
    }

    /// Hands the host every queued notification, oldest first, and empties
    /// the queue.
    pub fn take_pending(&mut self) -> (r: Vec<Delivery>)
        ensures
            r@.len() == old(self)@.pending.len(),
            forall|i: int| 0 <= i < r@.len() ==> (#[trigger] r@[i])@ == old(self)@.pending[i],
            final(self)@ == (RegistryModel { pending: Seq::empty(), ..old(self)@ }),
    {
        let r = self.pending.split_off(0);
        proof {
            assert(r@ =~= old(self).pending@);
            assert(self.pending@ =~= Seq::<Delivery>::empty());
            assert(self@ =~= (RegistryModel { pending: Seq::empty(), ..old(self)@ }));
        }
        r
    }

    /// The lifecycle state of the client, or `None` for a handle that was
    /// never issued.
    pub fn client_state(&self, handle: usize) -> (r: Option<Lifecycle>)
        ensures
            r == (if self@.valid_handle(handle) {
                Some(self@.client(handle).state)
            } else {
                None::<Lifecycle>
            }),
    {
        if handle == 0 || handle > self.clients.len() {
            return None;
        }
        Some(self.clients[handle - 1].state)
    }

    /// The connection type the client was created with, or `None` for a
    /// handle that was never issued.
    pub fn connection_type(&self, handle: usize) -> (r: Option<ConnectionType>)
        ensures
            r == (if self@.valid_handle(handle) {
                Some(self@.client(handle).connection_type)
            } else {
                None::<ConnectionType>
            }),
    {
        if handle == 0 || handle > self.clients.len() {
            return None;
        }
        Some(self.clients[handle - 1].connection_type)
    }
}

} // verus!
