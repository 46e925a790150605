//! The two ends of a reply: what the actor's side reports for a resolution,
//! and what the calling side makes of whatever its reply channel yields.

use vstd::prelude::*;
use crate::error::Error;

verus! {

/// The reply that stands for a resolver's result: a success is passed on as it
/// is, a failure is marked as the resolver's own.
pub open spec fn reported<O, E>(resolved: Result<O, E>) -> Result<O, Error<E>> {
    match resolved {
        Ok(output) => Ok(output),
        Err(e) => Err(Error::Resolve(e)),
    }
}

/// What a caller ends up with, given what its reply channel yielded: the reply
/// itself, or `ActorGone` when the channel closed with nothing in it.
pub open spec fn collected<O, E>(received: Option<Result<O, Error<E>>>) -> Result<O, Error<E>> {
    match received {
        Some(reply) => reply,
        None => Err(Error::ActorGone),
    }
}

/// Turns a resolver's result into the reply that is sent back to the caller.
pub fn report<O, E>(resolved: Result<O, E>) -> (reply: Result<O, Error<E>>)
    ensures
        reply == reported(resolved),
{
    match resolved {
        Ok(output) => Ok(output),
        Err(e) => Err(Error::Resolve(e)),
    }
}

/// Turns what the reply channel yielded into the result of the call.
pub fn collect<O, E>(received: Option<Result<O, Error<E>>>) -> (outcome: Result<O, Error<E>>)
    ensures
        outcome == collected(received),
{
    match received {
        Some(reply) => reply,
        None => Err(Error::ActorGone),
    }
}

/// A reply that the actor's side reported reaches the caller as the
/// resolver's own answer: the success value itself, or the resolver's error
/// inside `Resolve`. It never reads as a closed inbox or a lost reply.
pub proof fn lemma_reported_reply_is_the_resolvers<O, E>(resolved: Result<O, E>)
    ensures
        resolved is Ok ==> collected(Some(reported(resolved))) == Ok::<O, Error<E>>(
            resolved->Ok_0,
        ),
        resolved is Err ==> collected(Some(reported(resolved))) == Err::<O, Error<E>>(
            Error::Resolve(resolved->Err_0),
        ),
        collected(Some(reported(resolved))) != Err::<O, Error<E>>(Error::ActorGone),
        collected(Some(reported(resolved))) != Err::<O, Error<E>>(Error::SendOnClosedChannel),
{
}

} // verus!
