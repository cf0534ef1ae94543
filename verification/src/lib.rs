//! A facade over a native message-broker client: a handle registry that owns
//! every client instance, a per-client lifecycle state machine with a sticky
//! last-error slot, and a bridge that queues inbound message notifications for
//! a single-threaded host to drain.
//!
//! The registry decides, for every operation, whether the handle resolves and
//! whether the operation is legal in the client's current state; the blocking
//! broker calls themselves (connect, produce, disconnect) are performed by the
//! embedding layer, which hands their outcome back to the registry.

pub mod client;
pub mod registry;
pub mod laws;
