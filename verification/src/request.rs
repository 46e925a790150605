//! Requests, the capability to resolve them, and the envelope they travel in.

use vstd::prelude::*;
use crossbeam_channel::{Receiver, SendError, Sender};
use crate::error::Error;
use crate::reply::{report, reported};

verus! {

/// A request that an actor can handle. For an actor to be able to resolve a
/// request it must implement [`Resolve`] for it.
pub trait Request: Sized + Send {
    /// What a successful resolution yields.
    type Output: Send;

    /// What a failed resolution yields.
    type Error: Send;
}

/// What a resolver hands back for a request of type `R`.
pub type Resolved<R> = Result<<R as Request>::Output, <R as Request>::Error>;

/// What the caller of a request of type `R` is told.
pub type Reply<R> = Result<<R as Request>::Output, Error<<R as Request>::Error>>;

/// The capability of an actor to resolve requests of type `R`.
pub trait Resolve<R: Request>: Sized {
    /// Whether resolving `req` may take the actor from `self` to `after` and
    /// yield `resolved`. Each actor says this of itself; one that says
    /// nothing allows everything.
    open spec fn resolves(self, req: R, after: Self, resolved: Resolved<R>) -> bool {
        true
    }

    /// Resolves one request, with exclusive access to the actor.
    fn resolve(&mut self, req: R) -> (resolved: Resolved<R>)
        ensures
            old(self).resolves(req, *final(self), resolved),
    ;
}

/// Anything that can be asked to resolve requests of type `R` and answers as
/// an actor's client is answered.
pub trait ResolveRequest<R: Request> {
    /// Resolves one request, or says why it could not be resolved.
    fn resolve_request(&mut self, req: R) -> Reply<R>;
}

/// A closed set of requests, each of which the actor `A` can resolve.
pub trait Vocabulary<A>: Sized {
    /// Whether resolving the request that this value holds may take the
    /// actor from `before` to `after`.
    open spec fn resolved_between(self, before: A, after: A) -> bool {
        true
    }

    /// Has `actor` resolve the request this value holds and sends the reply
    /// back to whoever asked.
    fn resolve_with(self, actor: &mut A)
        ensures
            self.resolved_between(*old(actor), *final(actor)),
    ;
}

/// A request that can be put in an envelope of the vocabulary `T`.
pub trait Wrappable<T>: Request + 'static {
    /// Seals the request in an envelope of its own, and hands back the
    /// vocabulary's value for it with the receiving end of its reply channel.
    fn into_wrapped_pair(self) -> (T, Receiver<Reply<Self>>);
}

/// A message for an actor: one request and the channel its reply goes back on.
#[derive(Debug)]
#[verifier::reject_recursive_types(R)]
pub struct Message<R: Request> {
    /// The request being sent.
    pub req: R,
    /// The sending end of the reply channel.
    pub tx: Sender<Reply<R>>,
}

/// What travels on an actor's channel.
#[derive(Debug)]
pub enum Wrapper<T> {
    /// A request for processing.
    Request(T),
    /// Tells the owner of the channel to shut down.
    ShutDown,
}

impl<R: Request> Message<R> {
    /// Seals `req` in an envelope with a fresh reply channel that holds one
    /// reply, and hands back the envelope with the channel's receiving end:
    /// the envelope's sender and the receiver are the two ends of one channel
    /// that `bounded` made with one slot.
    pub fn seal(req: R) -> (sealed: (Message<R>, Receiver<Reply<R>>))
        ensures
            sealed.0.req == req,
            call_ensures(
                crossbeam_channel::bounded::<Reply<R>>,
                (1usize,),
                (sealed.0.tx, sealed.1),
            ),
    {
        let (tx, rx) = crossbeam_channel::bounded(1);
        (Message { req, tx }, rx)
    }

    /// `reply` was handed to the channel's `send` on this envelope's sender.
    pub open spec fn sent_back(self, reply: Reply<R>) -> bool {
        exists|sent: Result<(), SendError<Reply<R>>>| #[trigger]
            call_ensures(Sender::<Reply<R>>::send, (&self.tx, reply), sent)
    }

    /// Has `actor` resolve the request in this envelope, and hands back the
    /// reply with the channel that it is to go back on: the envelope's own.
    pub fn answer<A: Resolve<R>>(self, actor: &mut A) -> (answered: (Reply<R>, Sender<Reply<R>>))
        ensures
            answered.1 == self.tx,
            exists|resolved: Resolved<R>|
                #[trigger] old(actor).resolves(self.req, *final(actor), resolved) && answered.0
                    == reported(resolved),
    {
        let Message { req, tx } = self;
        let resolved = actor.resolve(req);
        (report(resolved), tx)
    }
}

impl<A: Resolve<R>, R: Request> Vocabulary<A> for Message<R> {
    /// The actor went from `before` to `after` by resolving this envelope's
    /// request.
    open spec fn resolved_between(self, before: A, after: A) -> bool {
        exists|resolved: Resolved<R>| #[trigger] before.resolves(self.req, after, resolved)
    }

    /// Resolves the request and sends the reply: what the actor resolved,
    /// reported, is handed to the channel's `send` on the envelope's own
    /// sender. A caller that has given up waiting is no fault of the actor:
    /// the reply is then dropped.
    fn resolve_with(self, actor: &mut A)
        ensures
            exists|resolved: Resolved<R>| #[trigger]
                old(actor).resolves(self.req, *final(actor), resolved) && self.sent_back(
                    reported(resolved),
                ),
    {
        let (reply, tx) = self.answer(actor);
        let _ = tx.send(reply);
    }
}

} // verus!
