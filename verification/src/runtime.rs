//! The actor's side of the protocol: the loop that owns the actor and its
//! inbox, one iteration at a time.

use vstd::prelude::*;
use crossbeam_channel::{Receiver, RecvError};
use crate::request::{Vocabulary, Wrapper};
use crate::resolve::Agent;

verus! {

/// What the loop does with what it pulled from the inbox.
pub enum Step<T> {
    /// Resolve the request in this envelope, and go on.
    Resolve(T),
    /// End the loop.
    Stop,
}

/// The step that answers to what the inbox yielded: a request is resolved,
/// a shutdown signal ends the loop, and so does an inbox that is empty with
/// no agent left (`None`).
pub open spec fn step_for<T>(pulled: Option<Wrapper<T>>) -> Step<T> {
    match pulled {
        Some(Wrapper::Request(envelope)) => Step::Resolve(envelope),
        Some(Wrapper::ShutDown) => Step::Stop,
        None => Step::Stop,
    }
}

/// Decides the loop's next step from what the inbox yielded.
pub fn decide<T>(pulled: Option<Wrapper<T>>) -> (step: Step<T>)
    ensures
        step == step_for(pulled),
{
    match pulled {
        Some(Wrapper::Request(envelope)) => Step::Resolve(envelope),
        Some(Wrapper::ShutDown) => Step::Stop,
        None => Step::Stop,
    }
}

/// The loop of one actor: it owns the actor and the receiving end of its
/// inbox, and nothing else ever touches either.
#[verifier::reject_recursive_types(T)]
pub struct ActorLoop<A, T> {
    actor: A,
    inbox: Receiver<Wrapper<T>>,
}

/// Hands `actor` over to a new loop with an empty inbox, and returns the
/// first agent on that inbox together with the loop, which has yet to be run.
/// The agent's sending end and the loop's receiving end are the two ends of
/// one channel that `unbounded` made.
pub fn launch<A, T>(actor: A) -> (started: (Agent<T>, ActorLoop<A, T>))
    ensures
        started.1.actor() == actor,
        call_ensures(
            crossbeam_channel::unbounded::<Wrapper<T>>,
            (),
            (started.0.inbox(), started.1.inbox()),
        ),
{
    let (tx, rx) = crossbeam_channel::unbounded();
    (Agent::on(tx), ActorLoop { actor, inbox: rx })
}

impl<A, T> ActorLoop<A, T> {
    /// The actor as it stands between two iterations.
    pub closed spec fn actor(self) -> A {
        self.actor
    }

    /// The receiving end of the actor's inbox.
    pub closed spec fn inbox(self) -> Receiver<Wrapper<T>> {
        self.inbox
    }

    /// `next` is what serving `pulled` leads to. The loop goes on exactly
    /// where a request was pulled: on the same inbox, with the actor as
    /// resolving that request left it.
    pub open spec fn serves(self, pulled: Option<Wrapper<T>>, next: Option<Self>) -> bool where
        T: Vocabulary<A>,
     {
        &&& next is Some <==> step_for(pulled) is Resolve
        &&& next matches Some(running) ==> {
            &&& running.inbox() == self.inbox()
            &&& step_for(pulled)->Resolve_0.resolved_between(self.actor(), running.actor())
        }
    }

    /// One iteration. It blocks until the inbox yields a signal or is empty
    /// with no agent left, and then serves what the inbox yielded: the signal
    /// that the channel's `recv` hands out, or nothing where `recv` fails.
    pub fn step(self) -> (next: Option<Self>) where T: Vocabulary<A>
        ensures
            exists|pulled: Result<Wrapper<T>, RecvError>| #[trigger]
                call_ensures(Receiver::<Wrapper<T>>::recv, (&self.inbox(),), pulled)
                    && self.serves(pulled.ok(), next),
    {
        let received = self.inbox.recv();
        assert(call_ensures(Receiver::<Wrapper<T>>::recv, (&self.inbox(),), received));
        self.serve(received.ok())
    }

    /// Serves what was pulled from the inbox. A request is resolved by the
    /// actor and the loop is handed back, on the same inbox. Anything else
    /// ends the loop: `None` is returned, and the actor and the inbox are
    /// dropped.
    pub fn serve(self, pulled: Option<Wrapper<T>>) -> (next: Option<Self>) where T: Vocabulary<A>
        ensures
            self.serves(pulled, next),
    {
        let ActorLoop { mut actor, inbox } = self;
        match decide(pulled) {
            Step::Resolve(envelope) => {
                envelope.resolve_with(&mut actor);
                Some(ActorLoop { actor, inbox })
            },
            Step::Stop => None,
        }
    }
}

} // verus!
