//! What the protocol guarantees, proved of its model.
//!
//! A sequence of events stands for one way in which the threads of the
//! clients and the loop take turns. What is proved of every sequence holds
//! however they interleave.

use vstd::prelude::*;
use crate::error::Error;
use crate::protocol::{
    answered_alone, answered_elsewhere, reply_channel, requests_ahead, resolves_alike,
    resolves_as, sent_elsewhere, state_free, steps_in, widened_event, widened_events, Call, Event,
    System,
};
use crate::reply::reported;
use crate::request::{Message, Reply, Request, Resolve, Resolved, Wrapper};

verus! {

/// The loop of the model does what the loop of an actor does. Let the actor
/// resolve as `resolver` says, and let the loop pull the call that an
/// envelope stands for. Then the actor and the reply that
/// [`Message::answer`] hands back for the envelope are the actor after one
/// iteration of the model, and the reply that this iteration puts on the
/// call's reply channel.
pub proof fn lemma_answer_is_a_step<A: Resolve<R>, R: Request>(
    s: System<A, R, <R as Request>::Output, <R as Request>::Error>,
    resolver: spec_fn(A, R) -> (A, Resolved<R>),
    envelope: Message<R>,
    reply_to: nat,
    after: A,
    reply: Reply<R>,
)
    requires
        resolves_as::<A, R>(resolver),
        !s.joined(),
        s.pulled() == Some(Wrapper::Request(Call { reply_to, payload: envelope.req })),
        exists|resolved: Resolved<R>| #[trigger]
            s.actor.resolves(envelope.req, after, resolved) && reply == reported(resolved),
    ensures
        s.step(resolver).actor == after,
        s.step(resolver).replies.contains_key(reply_to),
        s.step(resolver).replies[reply_to] == reply,
        s.step(resolver).inbox == s.inbox.skip(1),
        !s.step(resolver).joined(),
{
}

/// A loop that has ended takes no more iterations.
pub proof fn lemma_run_of_joined<A, P, O, E>(
    s: System<A, P, O, E>,
    resolver: spec_fn(A, P) -> (A, Result<O, E>),
    n: nat,
)
    requires
        s.joined(),
    ensures
        s.run(resolver, n) == s,
    decreases n,
{
    if n > 0 {
        lemma_run_of_joined(s, resolver, (n - 1) as nat);
    }
}

/// Once the loop has ended, nothing that happens brings it back, and nothing
/// but the number of agents changes any more.
pub proof fn lemma_joined_is_final<A, P, O, E>(
    s: System<A, P, O, E>,
    resolver: spec_fn(A, P) -> (A, Result<O, E>),
    events: Seq<Event<P>>,
)
    requires
        s.joined(),
    ensures
        s.after_all(events, resolver).joined(),
        s.after_all(events, resolver).actor == s.actor,
        s.after_all(events, resolver).inbox == s.inbox,
        s.after_all(events, resolver).replies == s.replies,
    decreases events.len(),
{
    if events.len() > 0 {
        lemma_joined_is_final(s.after(events[0], resolver), resolver, events.skip(1));
    }
}

/// A shutdown signal in the inbox ends the loop by the time the loop has
/// pulled it, whatever stands before it and whatever else happens meanwhile.
pub proof fn lemma_shutdown_ends_the_loop<A, P, O, E>(
    s: System<A, P, O, E>,
    resolver: spec_fn(A, P) -> (A, Result<O, E>),
    k: nat,
    events: Seq<Event<P>>,
)
    requires
        k < s.inbox.len(),
        s.inbox[k as int] is ShutDown,
        steps_in(events) > k,
    ensures
        s.after_all(events, resolver).joined(),
    decreases events.len(),
{
    let next = s.after(events[0], resolver);
    let rest = events.skip(1);
    if s.joined() {
        lemma_joined_is_final(s, resolver, events);
    } else if events[0] is Stepped {
        if s.inbox[0] is ShutDown {
            // An earlier signal, or this one: the loop ends here.
            lemma_joined_is_final(next, resolver, rest);
        } else {
            // A request is served, and the signal moves up by one.
            lemma_shutdown_ends_the_loop(next, resolver, (k - 1) as nat, rest);
        }
    } else {
        // What the agents do leaves the signal where it is.
        lemma_shutdown_ends_the_loop(next, resolver, k, rest);
    }
}

/// Send after shutdown. Let an agent shut a running actor down, let the loop
/// come to pull the signal while anything else happens, and let anything at
/// all happen after that. Then the loop has ended and stays so, and every
/// send from then on, on whichever agent is left, returns
/// `SendOnClosedChannel` at once and leaves no trace.
pub proof fn lemma_send_after_shutdown<A, P, O, E>(
    s: System<A, P, O, E>,
    resolver: spec_fn(A, P) -> (A, Result<O, E>),
    until: Seq<Event<P>>,
    since: Seq<Event<P>>,
    call: Call<P>,
    later: System<A, P, O, E>,
)
    requires
        !s.joined(),
        steps_in(until) > s.inbox.len(),
    ensures
        ({
            let ended = s.shutdown().after_all(until, resolver);
            let now = ended.after_all(since, resolver);
            &&& ended.joined()
            &&& now.joined()
            &&& now.send(call) == now
            &&& now.returned(later, call.reply_to) == Some(
                Err::<O, Error<E>>(Error::SendOnClosedChannel),
            )
        }),
{
    let ended = s.shutdown().after_all(until, resolver);
    lemma_shutdown_ends_the_loop(s.shutdown(), resolver, s.inbox.len(), until);
    lemma_joined_is_final(ended, resolver, since);
}

/// A request behind a shutdown signal is abandoned: the loop ends without
/// coming to it, and its caller is told that the actor is gone.
pub proof fn lemma_abandoned_behind_shutdown<A, P, O, E>(
    s: System<A, P, O, E>,
    resolver: spec_fn(A, P) -> (A, Result<O, E>),
    k: nat,
    i: nat,
    events: Seq<Event<P>>,
)
    requires
        !s.joined(),
        k < i < s.inbox.len(),
        s.inbox[k as int] is ShutDown,
        s.inbox[i as int] is Request,
        !s.replies.contains_key(s.inbox[i as int]->Request_0.reply_to),
        forall|j: int|
            0 <= j < k ==> reply_channel(#[trigger] s.inbox[j]) != reply_channel(s.inbox[i as int]),
        steps_in(events) > k,
    ensures
        s.after_all(events, resolver).joined(),
        s.after_all(events, resolver).awaited(s.inbox[i as int]->Request_0.reply_to) == Some(
            Err::<O, Error<E>>(Error::ActorGone),
        ),
    decreases events.len(),
{
    let next = s.after(events[0], resolver);
    let rest = events.skip(1);
    if events[0] is Stepped {
        if s.inbox[0] is ShutDown {
            // The loop ends with the request still in the inbox.
            lemma_joined_is_final(next, resolver, rest);
        } else {
            // Another request is served, on another reply channel.
            lemma_abandoned_behind_shutdown(
                next,
                resolver,
                (k - 1) as nat,
                (i - 1) as nat,
                rest,
            );
        }
    } else {
        lemma_abandoned_behind_shutdown(next, resolver, k, i, rest);
    }
}

/// An actor that no agent can reach any more ends by itself, once the loop
/// has gone through what is left in the inbox.
pub proof fn lemma_unreachable_actor_ends<A, P, O, E>(
    s: System<A, P, O, E>,
    resolver: spec_fn(A, P) -> (A, Result<O, E>),
    n: nat,
)
    requires
        s.agents == 0,
        n > s.inbox.len(),
    ensures
        s.run(resolver, n).joined(),
    decreases s.inbox.len(),
{
    let next = s.step(resolver);
    if s.joined() {
        lemma_run_of_joined(s, resolver, n);
    } else if s.inbox.len() > 0 && s.inbox[0] is Request {
        lemma_unreachable_actor_ends(next, resolver, (n - 1) as nat);
    } else {
        lemma_run_of_joined(next, resolver, (n - 1) as nat);
    }
}

/// A reply channel that no request is to be answered on, neither one in the
/// inbox nor one that is sent later, holds what it holds for good: the loop
/// puts no reply on it.
pub proof fn lemma_reply_is_kept<A, P, O, E>(
    s: System<A, P, O, E>,
    resolver: spec_fn(A, P) -> (A, Result<O, E>),
    events: Seq<Event<P>>,
    reply_to: nat,
)
    requires
        answered_elsewhere(s.inbox, reply_to),
        sent_elsewhere(events, reply_to),
    ensures
        s.after_all(events, resolver).replies.contains_key(reply_to) == s.replies.contains_key(
            reply_to,
        ),
        s.after_all(events, resolver).replies[reply_to] == s.replies[reply_to],
        s.answers_in(events, resolver, reply_to) == 0,
    decreases events.len(),
{
    if events.len() > 0 {
        // Whatever the first event is, it puts no reply on this channel and
        // no request for it in the inbox.
        lemma_reply_is_kept(s.after(events[0], resolver), resolver, events.skip(1), reply_to);
    }
}

/// How the loop serves the requests at the head of the inbox depends on the
/// actor and on those requests, and on nothing else.
pub proof fn lemma_served_alike<A, P, O, E>(
    s: System<A, P, O, E>,
    t: System<A, P, O, E>,
    resolver: spec_fn(A, P) -> (A, Result<O, E>),
    n: nat,
)
    requires
        !s.joined(),
        !t.joined(),
        s.actor == t.actor,
        n <= s.inbox.len(),
        n <= t.inbox.len(),
        forall|j: int| 0 <= j < n ==> s.inbox[j] == t.inbox[j],
        requests_ahead(s.inbox, n),
    ensures
        s.run(resolver, n).actor == t.run(resolver, n).actor,
    decreases n,
{
    if n > 0 {
        lemma_served_alike(s.step(resolver), t.step(resolver), resolver, (n - 1) as nat);
    }
}

/// No cross-talk. Take a request in the inbox of a running actor, with only
/// requests before it and a reply channel of its own. Whatever happens, in
/// whatever order, once the loop has taken enough iterations to come to that
/// request, its caller is given the reply to its own payload, resolved by
/// the actor as the requests before it left it; and the loop puts a reply on
/// that request's channel exactly once, so that the reply is never replaced.
///
/// The order of the inbox is the order in which concurrent sends happened to
/// reach it, and the statement holds of every order. Where the resolver's
/// result does not depend on the actor's state, the reply is the same in
/// every order.
pub proof fn lemma_no_cross_talk<A, P, O, E>(
    s: System<A, P, O, E>,
    resolver: spec_fn(A, P) -> (A, Result<O, E>),
    i: nat,
    events: Seq<Event<P>>,
)
    requires
        !s.joined(),
        i < s.inbox.len(),
        requests_ahead(s.inbox, i + 1),
        answered_alone(s.inbox, i as int),
        sent_elsewhere(events, s.inbox[i as int]->Request_0.reply_to),
        steps_in(events) > i,
    ensures
        ({
            let call = s.inbox[i as int]->Request_0;
            let actor = s.run(resolver, i).actor;
            &&& s.after_all(events, resolver).awaited(call.reply_to) == Some(
                reported(resolver(actor, call.payload).1),
            )
            &&& state_free(resolver) ==> s.after_all(events, resolver).awaited(call.reply_to)
                == Some(reported(resolver(s.actor, call.payload).1))
            &&& s.answers_in(events, resolver, call.reply_to) == 1
        }),
    decreases events.len(),
{
    let call = s.inbox[i as int]->Request_0;
    let next = s.after(events[0], resolver);
    let rest = events.skip(1);
    if events[0] is Stepped {
        if i == 0 {
            // The loop serves this very request, and the reply stays.
            lemma_reply_is_kept(next, resolver, rest, call.reply_to);
        } else {
            // The loop serves the request at the head, and this one moves up.
            lemma_no_cross_talk(next, resolver, (i - 1) as nat, rest);
        }
    } else {
        // What the agents do reaches the inbox behind this request.
        lemma_served_alike(s, next, resolver, i);
        lemma_no_cross_talk(next, resolver, i, rest);
    }
}

/// A call that is sent to a running actor with no shutdown signal before it,
/// on a reply channel of its own, is answered. Whatever happens, in whatever
/// order, once the loop has taken enough iterations to serve what was in the
/// inbox and the call itself, the call has returned the reply to its own
/// payload, resolved by the actor as the requests before it left it, and the
/// loop has put one reply on its channel and no more.
pub proof fn lemma_call_is_answered<A, P, O, E>(
    s: System<A, P, O, E>,
    resolver: spec_fn(A, P) -> (A, Result<O, E>),
    call: Call<P>,
    events: Seq<Event<P>>,
)
    requires
        !s.joined(),
        requests_ahead(s.inbox, s.inbox.len()),
        answered_elsewhere(s.inbox, call.reply_to),
        sent_elsewhere(events, call.reply_to),
        steps_in(events) > s.inbox.len(),
    ensures
        ({
            let actor = s.run(resolver, s.inbox.len()).actor;
            let later = s.send(call).after_all(events, resolver);
            &&& s.returned(later, call.reply_to) == Some(
                reported(resolver(actor, call.payload).1),
            )
            &&& s.send(call).answers_in(events, resolver, call.reply_to) == 1
        }),
{
    let sent = s.send(call);
    lemma_served_alike(s, sent, resolver, s.inbox.len());
    lemma_no_cross_talk(sent, resolver, s.inbox.len(), events);
}

/// Round trip. Where the resolver succeeds on a call, with the actor as the
/// requests before the call left it, the call returns that very success.
pub proof fn lemma_round_trip<A, P, O, E>(
    s: System<A, P, O, E>,
    resolver: spec_fn(A, P) -> (A, Result<O, E>),
    call: Call<P>,
    events: Seq<Event<P>>,
    output: O,
)
    requires
        !s.joined(),
        requests_ahead(s.inbox, s.inbox.len()),
        answered_elsewhere(s.inbox, call.reply_to),
        sent_elsewhere(events, call.reply_to),
        steps_in(events) > s.inbox.len(),
        resolver(s.run(resolver, s.inbox.len()).actor, call.payload).1 == Ok::<O, E>(output),
    ensures
        s.returned(s.send(call).after_all(events, resolver), call.reply_to) == Some(
            Ok::<O, Error<E>>(output),
        ),
{
    lemma_call_is_answered(s, resolver, call, events);
}

/// Error propagation. Where the resolver fails on a call, with the actor as
/// the requests before the call left it, the call returns that very error,
/// marked as the resolver's.
pub proof fn lemma_error_propagation<A, P, O, E>(
    s: System<A, P, O, E>,
    resolver: spec_fn(A, P) -> (A, Result<O, E>),
    call: Call<P>,
    events: Seq<Event<P>>,
    error: E,
)
    requires
        !s.joined(),
        requests_ahead(s.inbox, s.inbox.len()),
        answered_elsewhere(s.inbox, call.reply_to),
        sent_elsewhere(events, call.reply_to),
        steps_in(events) > s.inbox.len(),
        resolver(s.run(resolver, s.inbox.len()).actor, call.payload).1 == Err::<O, E>(error),
    ensures
        s.returned(s.send(call).after_all(events, resolver), call.reply_to) == Some(
            Err::<O, Error<E>>(Error::Resolve(error)),
        ),
{
    lemma_call_is_answered(s, resolver, call, events);
}

/// One event on an agent of a larger vocabulary that stands in for one of a
/// smaller does to the widened system what the event does to the system
/// itself.
pub proof fn lemma_widened_event<A, S, L, O, E>(
    s: System<A, S, O, E>,
    narrow: spec_fn(A, S) -> (A, Result<O, E>),
    wide: spec_fn(A, L) -> (A, Result<O, E>),
    embed: spec_fn(S) -> L,
    event: Event<S>,
)
    requires
        resolves_alike(wide, narrow, embed),
    ensures
        s.widened(embed).after(widened_event(event, embed), wide) == s.after(
            event,
            narrow,
        ).widened(embed),
{
}

/// Subset substitutability. Let a larger vocabulary hold every request of a
/// smaller one, and let the actor resolve what is carried over as it
/// resolves the request itself. Then whatever the clients and the loop do,
/// in whatever order, doing it through agents of the larger vocabulary leads
/// to the widened image of what doing it through agents of the smaller one
/// leads to: the actor is left the same, and every caller is given the same.
pub proof fn lemma_subset_substitutes<A, S, L, O, E>(
    s: System<A, S, O, E>,
    narrow: spec_fn(A, S) -> (A, Result<O, E>),
    wide: spec_fn(A, L) -> (A, Result<O, E>),
    embed: spec_fn(S) -> L,
    events: Seq<Event<S>>,
    reply_to: nat,
)
    requires
        resolves_alike(wide, narrow, embed),
    ensures
        ({
            let through_larger = s.widened(embed).after_all(widened_events(events, embed), wide);
            let through_smaller = s.after_all(events, narrow);
            &&& through_larger == through_smaller.widened(embed)
            &&& through_larger.actor == through_smaller.actor
            &&& s.widened(embed).returned(through_larger, reply_to) == s.returned(
                through_smaller,
                reply_to,
            )
        }),
    decreases events.len(),
{
    if events.len() > 0 {
        lemma_widened_event(s, narrow, wide, embed, events[0]);
        assert(widened_events(events, embed).skip(1) =~= widened_events(events.skip(1), embed));
        lemma_subset_substitutes(
            s.after(events[0], narrow),
            narrow,
            wide,
            embed,
            events.skip(1),
            reply_to,
        );
    }
}

} // verus!
