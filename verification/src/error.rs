//! What a caller can be told when a call on an actor does not succeed.

use vstd::prelude::*;

verus! {

/// An error met while interacting with an actor.
#[derive(Debug)]
pub enum Error<E> {
    /// The actor's resolver reported a failure; its error is carried unchanged.
    Resolve(E),
    /// The channel to the actor was already closed when the request was sent.
    SendOnClosedChannel,
    /// The request was sent, and the reply channel closed before an answer came.
    ActorGone,
}

impl<E> Error<E> {
    /// The text that describes this error.
    pub open spec fn text(self) -> Seq<char> {
        match self {
            Error::Resolve(_) => "error while running resolver"@,
            Error::SendOnClosedChannel => "attempt to send on closed channel to the Actor"@,
            Error::ActorGone => "actor closed the response channel"@,
        }
    }

    /// Describes the error in words.
    pub fn message(&self) -> (described: String)
        ensures
            described@ == self.text(),
    {
        match self {
            Error::Resolve(_) => "error while running resolver".to_owned(),
            Error::SendOnClosedChannel => {
                "attempt to send on closed channel to the Actor".to_owned()
            },
            Error::ActorGone => "actor closed the response channel".to_owned(),
        }
    }
}

} // verus!
