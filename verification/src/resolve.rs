//! The client's side of the protocol: the agent, and the handles that stand
//! in for it where only part of its vocabulary is asked for.

use vstd::prelude::*;
use crossbeam_channel::{Receiver, RecvError, SendError, Sender};
use crate::error::Error;
use crate::reply::{collect, collected};
use crate::request::{Reply, Request, ResolveRequest, Wrappable, Wrapper};

verus! {

/// A handle for submitting requests to an actor for processing. Clones share
/// the actor's inbox; none of them owns the actor.
#[derive(Debug)]
#[verifier::reject_recursive_types(T)]
pub struct Agent<T> {
    pub(crate) tx: Sender<Wrapper<T>>,
}

impl<T> Clone for Agent<T> {
    /// Another agent on the same inbox: its sending end is a clone of this
    /// agent's. The envelopes need not be cloneable.
    fn clone(&self) -> (cloned: Self)
        ensures
            call_ensures(<Sender<Wrapper<T>> as Clone>::clone, (&self.inbox(),), cloned.inbox()),
    {
        Self { tx: self.tx.clone() }
    }
}

/// `outcome` is what waiting on `rx` may come to: the reply that the
/// channel's `recv` yields, or `ActorGone` where `recv` fails because the
/// channel has closed with nothing in it.
pub open spec fn may_yield<R: Request>(rx: Receiver<Reply<R>>, outcome: Reply<R>) -> bool {
    exists|received: Result<Reply<R>, RecvError>| #[trigger]
        call_ensures(Receiver::<Reply<R>>::recv, (&rx,), received) && outcome == collected(
            received.ok(),
        )
}

/// Waits on a reply channel for the answer to one call. Where the channel
/// closes with nothing in it, the call ends in `ActorGone`.
pub fn await_reply<R: Request>(rx: Receiver<Reply<R>>) -> (outcome: Reply<R>)
    ensures
        may_yield::<R>(rx, outcome),
{
    collect(rx.recv().ok())
}

impl<T> Agent<T> {
    /// The sending end of the actor's inbox.
    pub closed spec fn inbox(self) -> Sender<Wrapper<T>> {
        self.tx
    }

    /// `accepted` is what putting `wrapped` in the inbox may come to: whether
    /// the channel's `send` takes the request signal that holds it.
    pub open spec fn may_accept(self, wrapped: T, accepted: bool) -> bool {
        exists|sent: Result<(), SendError<Wrapper<T>>>| #[trigger]
            call_ensures(
                Sender::<Wrapper<T>>::send,
                (&self.inbox(), Wrapper::Request(wrapped)),
                sent,
            ) && accepted == (sent is Ok)
    }

    /// `outcome` is what sending `wrapped` and waiting on `rx` may come to:
    /// `SendOnClosedChannel` where the inbox does not take the envelope, and
    /// else what waiting on `rx` comes to.
    pub open spec fn may_return<R: Request>(
        self,
        wrapped: T,
        rx: Receiver<Reply<R>>,
        outcome: Reply<R>,
    ) -> bool {
        exists|accepted: bool| #[trigger]
            self.may_accept(wrapped, accepted) && if accepted {
                may_yield::<R>(rx, outcome)
            } else {
                outcome matches Err(Error::SendOnClosedChannel)
            }
    }

    /// `outcome` is what sending `req` may come to: what sending the envelope
    /// that `req` is sealed in and waiting on its reply channel comes to.
    pub open spec fn may_send<R: Wrappable<T>>(self, req: R, outcome: Reply<R>) -> bool {
        exists|wrapped: T, rx: Receiver<Reply<R>>| #[trigger]
            call_ensures(R::into_wrapped_pair, (req,), (wrapped, rx)) && self.may_return::<R>(
                wrapped,
                rx,
                outcome,
            )
    }

    /// `outcome` is what the agent may come to with an envelope of the
    /// vocabulary `U`: what sending the envelope that `wrapped` converts into
    /// and waiting on `rx` comes to.
    pub open spec fn may_resolve<U: Into<T>, R: Request>(
        self,
        wrapped: U,
        rx: Receiver<Reply<R>>,
        outcome: Reply<R>,
    ) -> bool {
        exists|converted: T| #[trigger]
            call_ensures(U::into, (wrapped,), converted) && self.may_return::<R>(
                converted,
                rx,
                outcome,
            )
    }

    /// `outcome` is what handling `req` as a request of the vocabulary `U`
    /// may come to: what the agent comes to with the envelope of `U` that
    /// `req` is sealed in, waiting on its reply channel.
    pub open spec fn may_handle<U: Into<T>, R: Wrappable<U>>(
        self,
        req: R,
        outcome: Reply<R>,
    ) -> bool {
        exists|wrapped: U, rx: Receiver<Reply<R>>| #[trigger]
            call_ensures(R::into_wrapped_pair, (req,), (wrapped, rx)) && self.may_resolve::<U, R>(
                wrapped,
                rx,
                outcome,
            )
    }

    /// The agent on the sending end `tx` of an actor's inbox.
    pub(crate) fn on(tx: Sender<Wrapper<T>>) -> (agent: Self)
        ensures
            agent.inbox() == tx,
    {
        Agent { tx }
    }

    /// Puts an envelope in the actor's inbox without waiting for anything,
    /// and tells whether the inbox took it. It does not once the actor's
    /// loop has ended.
    pub fn enqueue(&self, wrapped: T) -> (accepted: bool)
        ensures
            self.may_accept(wrapped, accepted),
    {
        self.tx.send(Wrapper::Request(wrapped)).is_ok()
    }

    /// Sends a request to the actor for it to resolve, and returns the
    /// result: the resolver's own, or the reason why none came back. The
    /// call blocks until the reply is there or its channel has closed.
    ///
    /// What comes back depends on what the actor's loop and the other agents
    /// do meanwhile; [`crate::guarantees`] says what it is in each case.
    pub fn send<R>(&self, req: R) -> (outcome: Reply<R>) where R: Wrappable<T>
        ensures
            self.may_send::<R>(req, outcome),
    {
        let (wrapped, rx) = req.into_wrapped_pair();
        self.send_inner::<R>(wrapped, rx)
    }

    /// Shuts down the actor behind this agent: the shutdown signal is handed
    /// to the channel's `send` on the agent's inbox.
    ///
    /// This does nothing if the actor has already been shut down, and it does
    /// not wait for the actor's loop to end.
    pub fn shutdown(self)
        ensures
            exists|sent: Result<(), SendError<Wrapper<T>>>| #[trigger]
                call_ensures(Sender::<Wrapper<T>>::send, (&self.inbox(), Wrapper::ShutDown), sent),
    {
        let _ = self.tx.send(Wrapper::ShutDown);
    }

    /// Sends an envelope on its way and waits on `rx` for the reply. Where the
    /// inbox does not take the envelope, nothing is waited for.
    fn send_inner<R>(&self, wrapped: T, rx: Receiver<Reply<R>>) -> (outcome: Reply<R>) where
        R: Request + 'static,

        ensures
            self.may_return::<R>(wrapped, rx, outcome),
    {
        if !self.enqueue(wrapped) {
            return Err(Error::SendOnClosedChannel);
        }
        await_reply::<R>(rx)
    }
}

impl<R, T> ResolveRequest<R> for Agent<T> where R: Wrappable<T> {
    /// Resolves the request by sending it to the actor. The agent is left as
    /// it was.
    fn resolve_request(&mut self, req: R) -> (outcome: Reply<R>)
        ensures
            *final(self) == *old(self),
            old(self).may_send::<R>(req, outcome),
    {
        self.send(req)
    }
}

/// Something that takes the requests of the vocabulary `U`, whatever larger
/// vocabulary it may serve.
pub trait Handle<U> {
    /// Sends a request to the actor for it to resolve, and returns the
    /// result: what `map_and_resolve` returns for the envelope that the
    /// request is sealed in and the receiving end of its reply channel.
    fn handle<R>(&self, req: R) -> Reply<R> where R: Wrappable<U> {
        let (wrapped, rx) = req.into_wrapped_pair();
        self.map_and_resolve::<R>(wrapped, rx)
    }

    /// Sends an envelope of `U` on its way and waits on `rx` for the reply.
    fn map_and_resolve<R>(&self, wrapped: U, rx: Receiver<Reply<R>>) -> Reply<R> where
        R: Request + 'static,
    ;
}

/// An agent takes the requests of every vocabulary whose envelopes convert
/// into its own: it converts the envelope and sends it like one of its own.
impl<T, U> Handle<U> for Agent<T> where U: Into<T> {
    /// Seals the request in an envelope of `U`, converts that envelope into
    /// one of the agent's own vocabulary, sends it on its way and waits on
    /// the reply channel of the envelope.
    fn handle<R>(&self, req: R) -> (outcome: Reply<R>) where R: Wrappable<U>
        ensures
            self.may_handle::<U, R>(req, outcome),
    {
        let (wrapped, rx) = req.into_wrapped_pair();
        self.map_and_resolve::<R>(wrapped, rx)
    }

    /// Converts the envelope into one of the agent's own vocabulary, sends it
    /// on its way and waits on `rx` for the reply.
    fn map_and_resolve<R>(&self, wrapped: U, rx: Receiver<Reply<R>>) -> (outcome: Reply<R>) where
        R: Request + 'static,

        ensures
            self.may_resolve::<U, R>(wrapped, rx, outcome),
    {
        self.send_inner::<R>(wrapped.into(), rx)
    }
}

} // verus!
