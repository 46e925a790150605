//! The protocol as a state machine.
//!
//! The channels that carry the protocol are shared between threads, so no
//! contract of an executable function can say what they hold. This module
//! describes the whole exchange instead: one actor, its loop, its inbox, and
//! the reply channels of the calls under way. The inbox is a queue that hands
//! signals out in the order in which it took them, and that refuses signals
//! once the loop has ended. The loop, the reply it reports and what a caller
//! collects are the functions that the executable code computes with:
//! [`step_for`], [`reported`] and [`collected`]. What holds of the whole is
//! proved in [`crate::guarantees`].

use vstd::prelude::*;
use crate::error::Error;
use crate::reply::{collected, reported};
use crate::request::{Request, Resolve, Resolved, Wrapper};
use crate::runtime::{step_for, Step};

verus! {

/// A call under way: what is asked, and the reply channel, known by its
/// number, on which the answer is awaited.
pub struct Call<P> {
    pub reply_to: nat,
    pub payload: P,
}

/// Whether the actor's loop still runs.
pub enum LoopState {
    Running,
    Terminated,
}

/// One actor with its loop, its inbox and the replies given so far.
///
/// `A` is the actor's state and `P` the payloads of its vocabulary; `O` and
/// `E` are what its resolvers yield. A resolver is a function from the
/// actor's state and a payload to the next state and the result.
#[verifier::ext_equal]
pub struct System<A, P, O, E> {
    /// The actor, as the last resolution left it.
    pub actor: A,
    /// Whether the loop still runs.
    pub state: LoopState,
    /// How many agents there are.
    pub agents: nat,
    /// The signals that were enqueued and not yet pulled, oldest first.
    pub inbox: Seq<Wrapper<Call<P>>>,
    /// The reply channels that hold a reply.
    pub replies: Map<nat, Result<O, Error<E>>>,
}

/// What can happen in a system, one thing at a time. A sequence of events is
/// one way in which the clients' threads and the loop may take turns.
pub enum Event<P> {
    /// An agent sends a call on its way.
    Sent(Call<P>),
    /// An agent is used up to tell the loop to end.
    ShutDown,
    /// An agent is cloned.
    Cloned,
    /// An agent is dropped.
    Released,
    /// The loop takes one iteration.
    Stepped,
}

/// The reply channel that a signal is to be answered on, if it is a request.
pub open spec fn reply_channel<P>(signal: Wrapper<Call<P>>) -> Option<nat> {
    match signal {
        Wrapper::Request(call) => Some(call.reply_to),
        Wrapper::ShutDown => None,
    }
}

/// The request at `at` has its reply channel to itself: no other request in
/// `inbox` is to be answered on it.
pub open spec fn answered_alone<P>(inbox: Seq<Wrapper<Call<P>>>, at: int) -> bool {
    forall|j: int|
        0 <= j < inbox.len() && j != at ==> reply_channel(#[trigger] inbox[j]) != reply_channel(
            inbox[at],
        )
}

/// No request in `inbox` is to be answered on `reply_to`.
pub open spec fn answered_elsewhere<P>(inbox: Seq<Wrapper<Call<P>>>, reply_to: nat) -> bool {
    forall|j: int| 0 <= j < inbox.len() ==> reply_channel(#[trigger] inbox[j]) != Some(reply_to)
}

/// The first `n` signals of `inbox` are requests.
pub open spec fn requests_ahead<P>(inbox: Seq<Wrapper<Call<P>>>, n: nat) -> bool {
    forall|j: int| 0 <= j < n && j < inbox.len() ==> (#[trigger] inbox[j]) is Request
}

/// No call that is sent in `events` is to be answered on `reply_to`.
pub open spec fn sent_elsewhere<P>(events: Seq<Event<P>>, reply_to: nat) -> bool {
    forall|j: int|
        0 <= j < events.len() && (#[trigger] events[j]) is Sent ==> events[j]->Sent_0.reply_to
            != reply_to
}

/// How many iterations the loop takes in `events`.
pub open spec fn steps_in<P>(events: Seq<Event<P>>) -> nat
    decreases events.len(),
{
    if events.len() == 0 {
        0
    } else if events[0] is Stepped {
        1 + steps_in(events.skip(1))
    } else {
        steps_in(events.skip(1))
    }
}

/// The resolver's result depends on the payload alone, not on the state that
/// the actor is in.
pub open spec fn state_free<A, P, O, E>(resolver: spec_fn(A, P) -> (A, Result<O, E>)) -> bool {
    forall|a: A, b: A, p: P|
        #![trigger resolver(a, p), resolver(b, p)]
        resolver(a, p).1 == resolver(b, p).1
}

/// The actors of type `A` resolve requests of type `R` as the function
/// `resolver` says: whatever their `resolve` may do, the function gives.
pub open spec fn resolves_as<A: Resolve<R>, R: Request>(
    resolver: spec_fn(A, R) -> (A, Resolved<R>),
) -> bool {
    forall|actor: A, req: R, after: A, resolved: Resolved<R>| #[trigger]
        actor.resolves(req, after, resolved) ==> (after, resolved) == resolver(actor, req)
}

/// A signal of a smaller vocabulary as a larger one holds it: the same call
/// with the same reply channel, its payload carried over by `embed`. This is
/// what an agent of the larger vocabulary does to an envelope of the smaller
/// one before it sends it.
pub open spec fn widened_signal<S, L>(signal: Wrapper<Call<S>>, embed: spec_fn(S) -> L) -> Wrapper<
    Call<L>,
> {
    match signal {
        Wrapper::Request(call) => Wrapper::Request(
            Call { reply_to: call.reply_to, payload: embed(call.payload) },
        ),
        Wrapper::ShutDown => Wrapper::ShutDown,
    }
}

/// An inbox of a smaller vocabulary as one of a larger vocabulary.
pub open spec fn widened_inbox<S, L>(inbox: Seq<Wrapper<Call<S>>>, embed: spec_fn(S) -> L) -> Seq<
    Wrapper<Call<L>>,
> {
    Seq::new(inbox.len(), |i: int| widened_signal(inbox[i], embed))
}

/// An event on an agent of a smaller vocabulary as it happens on an agent of
/// a larger one that stands in for it.
pub open spec fn widened_event<S, L>(event: Event<S>, embed: spec_fn(S) -> L) -> Event<L> {
    match event {
        Event::Sent(call) => Event::Sent(
            Call { reply_to: call.reply_to, payload: embed(call.payload) },
        ),
        Event::ShutDown => Event::ShutDown,
        Event::Cloned => Event::Cloned,
        Event::Released => Event::Released,
        Event::Stepped => Event::Stepped,
    }
}

/// A sequence of events, each widened.
pub open spec fn widened_events<S, L>(events: Seq<Event<S>>, embed: spec_fn(S) -> L) -> Seq<
    Event<L>,
> {
    Seq::new(events.len(), |i: int| widened_event(events[i], embed))
}

/// The resolver of the larger vocabulary resolves what `embed` carries over
/// as the resolver of the smaller vocabulary resolves the payload itself. It
/// does where both hand a request to the actor's [`Resolve`] for the type of
/// that request, as a vocabulary's `resolve_with` is meant to.
pub open spec fn resolves_alike<A, S, L, O, E>(
    wide: spec_fn(A, L) -> (A, Result<O, E>),
    narrow: spec_fn(A, S) -> (A, Result<O, E>),
    embed: spec_fn(S) -> L,
) -> bool {
    forall|actor: A, payload: S| wide(actor, embed(payload)) == #[trigger] narrow(actor, payload)
}

impl<A, P, O, E> System<A, P, O, E> {
    /// This system as it stands when its agents and its loop speak a larger
    /// vocabulary, into which `embed` carries each payload.
    pub open spec fn widened<L>(self, embed: spec_fn(P) -> L) -> System<A, L, O, E> {
        System {
            actor: self.actor,
            state: self.state,
            agents: self.agents,
            inbox: widened_inbox(self.inbox, embed),
            replies: self.replies,
        }
    }

    /// The system right after `actor` was handed to a new loop.
    pub open spec fn spawned(actor: A) -> Self {
        System {
            actor,
            state: LoopState::Running,
            agents: 1,
            inbox: Seq::empty(),
            replies: Map::empty(),
        }
    }

    /// The loop has ended, and the actor and the inbox are gone with it.
    pub open spec fn joined(self) -> bool {
        self.state is Terminated
    }

    /// An agent puts a signal in the inbox. An inbox whose loop has ended
    /// takes nothing.
    pub open spec fn enqueue(self, signal: Wrapper<Call<P>>) -> Self {
        if self.joined() {
            self
        } else {
            System { inbox: self.inbox.push(signal), ..self }
        }
    }

    /// An agent sends a call on its way.
    pub open spec fn send(self, call: Call<P>) -> Self {
        self.enqueue(Wrapper::Request(call))
    }

    /// An agent is cloned.
    pub open spec fn cloned(self) -> Self {
        System { agents: self.agents + 1, ..self }
    }

    /// An agent is dropped.
    pub open spec fn released(self) -> Self {
        System { agents: (self.agents - 1) as nat, ..self }
    }

    /// An agent is used up to tell the loop to end.
    pub open spec fn shutdown(self) -> Self {
        self.enqueue(Wrapper::ShutDown).released()
    }

    /// What the loop pulls from the inbox: the oldest signal, or nothing
    /// where the inbox is empty.
    pub open spec fn pulled(self) -> Option<Wrapper<Call<P>>> {
        if self.inbox.len() > 0 {
            Some(self.inbox[0])
        } else {
            None
        }
    }

    /// The loop is not blocked: it runs, and the inbox holds a signal or has
    /// no agent left.
    pub open spec fn ready(self) -> bool {
        !self.joined() && (self.inbox.len() > 0 || self.agents == 0)
    }

    /// One iteration of the loop. A loop that is blocked or has ended leaves
    /// everything as it is. A request is resolved and its reply put on its
    /// reply channel. Anything else ends the loop, and what is still in the
    /// inbox is dropped with it.
    pub open spec fn step(self, resolver: spec_fn(A, P) -> (A, Result<O, E>)) -> Self {
        if !self.ready() {
            self
        } else {
            match step_for(self.pulled()) {
                Step::Resolve(call) => {
                    let (actor, resolved) = resolver(self.actor, call.payload);
                    System {
                        actor,
                        inbox: self.inbox.skip(1),
                        replies: self.replies.insert(call.reply_to, reported(resolved)),
                        ..self
                    }
                },
                Step::Stop => System {
                    state: LoopState::Terminated,
                    inbox: Seq::empty(),
                    ..self
                },
            }
        }
    }

    /// `n` iterations of the loop.
    pub open spec fn run(self, resolver: spec_fn(A, P) -> (A, Result<O, E>), n: nat) -> Self
        decreases n,
    {
        if n == 0 {
            self
        } else {
            self.step(resolver).run(resolver, (n - 1) as nat)
        }
    }

    /// The system after one event.
    pub open spec fn after(
        self,
        event: Event<P>,
        resolver: spec_fn(A, P) -> (A, Result<O, E>),
    ) -> Self {
        match event {
            Event::Sent(call) => self.send(call),
            Event::ShutDown => self.shutdown(),
            Event::Cloned => self.cloned(),
            Event::Released => self.released(),
            Event::Stepped => self.step(resolver),
        }
    }

    /// The system after a sequence of events, first to last.
    pub open spec fn after_all(
        self,
        events: Seq<Event<P>>,
        resolver: spec_fn(A, P) -> (A, Result<O, E>),
    ) -> Self
        decreases events.len(),
    {
        if events.len() == 0 {
            self
        } else {
            self.after(events[0], resolver).after_all(events.skip(1), resolver)
        }
    }

    /// The loop's next iteration puts a reply on the channel `reply_to`.
    pub open spec fn answers(self, reply_to: nat) -> bool {
        match step_for(self.pulled()) {
            Step::Resolve(call) => self.ready() && call.reply_to == reply_to,
            Step::Stop => false,
        }
    }

    /// How many replies the loop puts on the channel `reply_to` in the course
    /// of a sequence of events.
    pub open spec fn answers_in(
        self,
        events: Seq<Event<P>>,
        resolver: spec_fn(A, P) -> (A, Result<O, E>),
        reply_to: nat,
    ) -> nat
        decreases events.len(),
    {
        if events.len() == 0 {
            0
        } else {
            let later = self.after(events[0], resolver).answers_in(
                events.skip(1),
                resolver,
                reply_to,
            );
            if events[0] is Stepped && self.answers(reply_to) {
                1 + later
            } else {
                later
            }
        }
    }

    /// What a caller that waits on a reply channel gets: the reply once there
    /// is one, `ActorGone` once the loop has ended without one, and nothing
    /// yet (`None`) while the loop may still come to it.
    pub open spec fn awaited(self, reply_to: nat) -> Option<Result<O, Error<E>>> {
        if self.replies.contains_key(reply_to) {
            Some(collected(Some(self.replies[reply_to])))
        } else if self.joined() {
            Some(collected(None))
        } else {
            None
        }
    }

    /// What a call that was sent in this state has returned by the time the
    /// system is in the state `later`: `SendOnClosedChannel` at once where
    /// the inbox did not take it, else what waiting on its reply channel
    /// gives.
    pub open spec fn returned(self, later: Self, reply_to: nat) -> Option<Result<O, Error<E>>> {
        if self.joined() {
            Some(Err(Error::SendOnClosedChannel))
        } else {
            later.awaited(reply_to)
        }
    }
}

} // verus!
