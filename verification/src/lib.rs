//! The core of an actor runtime, with its rules proved.
//!
//! Actors are isolated state machines that communicate by messages only.
//! This crate holds the decisions of such a runtime as plain, verified state
//! machines: the bounded mailbox, the request that awaits a reply, the
//! execution context that drives an actor's lifecycle, and the supervisor that
//! restarts an actor while its addresses stay valid. Whatever has to wait on
//! the outside world (timers, sockets, name resolution, user futures) is
//! performed by the caller, step by step, as these machines ask for it.

pub mod actor;
pub mod actors;
pub mod address;
pub mod context;
pub mod fut;
pub mod handler;
pub mod mailbox;
pub mod supervisor;

pub use actor::{Actor, ActorState, SpawnHandle, Supervised};
pub use address::{
    ActorAddress, Address, Destination, LocalAddress, MailboxError, Reply, Request, SendError,
    Subscriber, Syn, Unsync,
};
pub use context::{Context, Step};
pub use fut::Async;
pub use handler::{Deferred, Envelope, Handler, Message, Response};
pub use mailbox::Mailbox;
pub use supervisor::{LocalMail, Supervision, Supervisor};
