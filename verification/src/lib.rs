//! A small, typed actor core.
//!
//! An actor owns its state and resolves requests one at a time. Clients hold
//! an [`Agent`], a cloneable handle on the actor's inbox, and every call is a
//! round trip: the request travels in an envelope that carries its own reply
//! channel, and the caller waits on that channel for the answer.
//!
//! The library runs no thread of its own. [`launch`] hands an actor to an
//! [`ActorLoop`], and whoever holds the loop runs it, one [`ActorLoop::step`]
//! after the other, until it ends.
//!
//! [`protocol`] describes the exchange between agents and loop as a whole,
//! and [`guarantees`] proves what holds of it.

pub mod channel;
pub mod error;
pub mod guarantees;
pub mod protocol;
pub mod reply;
pub mod request;
pub mod resolve;
pub mod runtime;

pub use error::Error;
pub use reply::{collect, report};
pub use request::{
    Message, Reply, Request, Resolve, ResolveRequest, Resolved, Vocabulary, Wrappable, Wrapper,
};
pub use resolve::{await_reply, Agent, Handle};
pub use runtime::{decide, launch, ActorLoop, Step};
