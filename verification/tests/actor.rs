use std::cell::RefCell;

use crossbeam_channel::Receiver;
use simple_actor::{
    await_reply, collect, decide, launch, report, ActorLoop, Agent, Error, Handle, Message, Reply,
    Request, Resolve, ResolveRequest, Resolved, Step, Vocabulary, Wrappable, Wrapper,
};

struct Add(usize, usize);

impl Request for Add {
    type Output = usize;
    type Error = ();
}

struct Concat(&'static str, &'static str);

impl Request for Concat {
    type Output = String;
    type Error = ();
}

struct Failure(bool);

impl Request for Failure {
    type Output = &'static str;
    type Error = &'static str;
}

struct TestActor;

impl Resolve<Add> for TestActor {
    fn resolve(&mut self, req: Add) -> Resolved<Add> {
        Ok(req.0 + req.1)
    }
}

impl Resolve<Concat> for TestActor {
    fn resolve(&mut self, req: Concat) -> Resolved<Concat> {
        Ok(format!("{}{}", req.0, req.1))
    }
}

impl Resolve<Failure> for TestActor {
    fn resolve(&mut self, req: Failure) -> Resolved<Failure> {
        if req.0 {
            Err("failed")
        } else {
            Ok("succeeded")
        }
    }
}

// The vocabulary [Add, Concat, Failure].
enum Example {
    Add(Message<Add>),
    Concat(Message<Concat>),
    Failure(Message<Failure>),
}

impl<A> Vocabulary<A> for Example
where
    A: Resolve<Add> + Resolve<Concat> + Resolve<Failure>,
{
    fn resolve_with(self, actor: &mut A) {
        match self {
            Example::Add(msg) => msg.resolve_with(actor),
            Example::Concat(msg) => msg.resolve_with(actor),
            Example::Failure(msg) => msg.resolve_with(actor),
        }
    }
}

impl Wrappable<Example> for Add {
    fn into_wrapped_pair(self) -> (Example, Receiver<Reply<Self>>) {
        let (msg, rx) = Message::seal(self);
        (Example::Add(msg), rx)
    }
}

impl Wrappable<Example> for Concat {
    fn into_wrapped_pair(self) -> (Example, Receiver<Reply<Self>>) {
        let (msg, rx) = Message::seal(self);
        (Example::Concat(msg), rx)
    }
}

impl Wrappable<Example> for Failure {
    fn into_wrapped_pair(self) -> (Example, Receiver<Reply<Self>>) {
        let (msg, rx) = Message::seal(self);
        (Example::Failure(msg), rx)
    }
}

impl From<Message<Add>> for Example {
    fn from(msg: Message<Add>) -> Example {
        Example::Add(msg)
    }
}

impl From<Message<Concat>> for Example {
    fn from(msg: Message<Concat>) -> Example {
        Example::Concat(msg)
    }
}

impl From<Message<Failure>> for Example {
    fn from(msg: Message<Failure>) -> Example {
        Example::Failure(msg)
    }
}

// The vocabulary [Add, Concat], declared a subset of the one above.
enum Example2 {
    Add(Message<Add>),
    Concat(Message<Concat>),
}

impl Example2 {
    fn from_inner_message<T>(self) -> T
    where
        T: Sized + From<Message<Add>> + From<Message<Concat>>,
    {
        match self {
            Example2::Add(msg) => msg.into(),
            Example2::Concat(msg) => msg.into(),
        }
    }
}

impl<A> Vocabulary<A> for Example2
where
    A: Resolve<Add> + Resolve<Concat>,
{
    fn resolve_with(self, actor: &mut A) {
        match self {
            Example2::Add(msg) => msg.resolve_with(actor),
            Example2::Concat(msg) => msg.resolve_with(actor),
        }
    }
}

impl Wrappable<Example2> for Add {
    fn into_wrapped_pair(self) -> (Example2, Receiver<Reply<Self>>) {
        let (msg, rx) = Message::seal(self);
        (Example2::Add(msg), rx)
    }
}

impl Wrappable<Example2> for Concat {
    fn into_wrapped_pair(self) -> (Example2, Receiver<Reply<Self>>) {
        let (msg, rx) = Message::seal(self);
        (Example2::Concat(msg), rx)
    }
}

impl From<Example2> for Example {
    fn from(child: Example2) -> Self {
        child.from_inner_message()
    }
}

/// An agent with its actor's loop at hand. Each call puts the request in the
/// inbox, runs one iteration of the loop on the caller's own thread, and
/// collects the reply.
struct Stepped<T> {
    agent: Agent<T>,
    actor_loop: RefCell<Option<ActorLoop<TestActor, T>>>,
}

impl<T: Vocabulary<TestActor>> Stepped<T> {
    fn start() -> Stepped<T> {
        let (agent, actor_loop) = launch::<TestActor, T>(TestActor);
        Stepped { agent, actor_loop: RefCell::new(Some(actor_loop)) }
    }

    fn step(&self) {
        let running = self.actor_loop.borrow_mut().take();
        *self.actor_loop.borrow_mut() = running.and_then(|actor_loop| actor_loop.step());
    }

    fn is_running(&self) -> bool {
        self.actor_loop.borrow().is_some()
    }

    fn send<R: Wrappable<T>>(&self, req: R) -> Reply<R> {
        let (wrapped, rx) = req.into_wrapped_pair();
        self.map_and_resolve::<R>(wrapped, rx)
    }
}

impl<T: Vocabulary<TestActor>, U: Into<T>> Handle<U> for Stepped<T> {
    fn map_and_resolve<R>(&self, wrapped: U, rx: Receiver<Reply<R>>) -> Reply<R>
    where
        R: Request + 'static,
    {
        if !self.agent.enqueue(wrapped.into()) {
            return Err(Error::SendOnClosedChannel);
        }
        self.step();
        await_reply::<R>(rx)
    }
}

impl<T: Vocabulary<TestActor>, R: Wrappable<T>> ResolveRequest<R> for Stepped<T> {
    fn resolve_request(&mut self, req: R) -> Reply<R> {
        self.send(req)
    }
}

/// An actor with a state of its own: it keeps a running total.
struct Tally {
    total: usize,
}

struct Bump(usize);

impl Request for Bump {
    type Output = usize;
    type Error = ();
}

impl Resolve<Bump> for Tally {
    fn resolve(&mut self, req: Bump) -> Resolved<Bump> {
        self.total += req.0;
        Ok(self.total)
    }
}

impl Wrappable<Message<Bump>> for Bump {
    fn into_wrapped_pair(self) -> (Message<Bump>, Receiver<Reply<Self>>) {
        Message::seal(self)
    }
}

#[test]
fn requests_work() {
    let agent = Stepped::<Example>::start();

    let res = agent.send(Add(1, 2)).unwrap();
    assert_eq!(res, 3);

    let res = agent.send(Concat("hello,", " world!")).unwrap();
    assert_eq!(res, "hello, world!");
}

#[test]
fn errors_are_returned_correctly() {
    let agent = Stepped::<Example>::start();

    let res = agent.send(Failure(false));
    assert!(res.is_ok());

    let res = agent.send(Failure(true));
    assert!(matches!(res, Err(Error::Resolve("failed"))));
}

#[test]
fn send_to_actor_after_shutdown_is_an_error() {
    let (agent, actor_loop) = launch::<TestActor, Example>(TestActor);
    let cloned = agent.clone();

    agent.shutdown();
    assert!(actor_loop.step().is_none());
    let res = cloned.send(Add(1, 2));

    assert!(matches!(res, Err(Error::SendOnClosedChannel)));
}

#[test]
fn generic_handles_work() {
    fn generic1<H: Handle<Example2>>(h: &H) -> Reply<Add> {
        h.handle(Add(1, 2))
    }

    fn generic2<H: Handle<Example2>>(h: &H) -> Reply<Concat> {
        h.handle(Concat("hello,", " world!"))
    }

    let agent = Stepped::<Example>::start();

    let res = generic1(&agent).expect("to resolve");
    assert_eq!(res, 3);

    let res = generic2(&agent).expect("to resolve");
    assert_eq!(res, "hello, world!");
}

#[test]
fn generic_resolvers_work() {
    fn generic<H>(mut h: H)
    where
        H: ResolveRequest<Add> + ResolveRequest<Concat>,
    {
        let n = h.resolve_request(Add(1, 2)).unwrap();
        assert_eq!(n, 3);

        let s = h.resolve_request(Concat("hello,", " world!")).unwrap();
        assert_eq!(s, "hello, world!");
    }

    let agent = Stepped::<Example>::start();
    assert!(agent.is_running());

    generic(agent);
}

#[test]
fn report_keeps_a_success_and_marks_a_failure() {
    assert!(matches!(report::<usize, &str>(Ok(3)), Ok(3)));
    assert!(matches!(report::<usize, &str>(Err("failed")), Err(Error::Resolve("failed"))));
}

#[test]
fn collect_hands_the_reply_on() {
    assert!(matches!(collect::<usize, &str>(Some(Ok(3))), Ok(3)));
    assert!(matches!(
        collect::<usize, &str>(Some(Err(Error::Resolve("failed")))),
        Err(Error::Resolve("failed"))
    ));
    assert!(matches!(
        collect::<usize, &str>(Some(Err(Error::SendOnClosedChannel))),
        Err(Error::SendOnClosedChannel)
    ));
}

#[test]
fn collect_turns_a_closed_reply_channel_into_actor_gone() {
    assert!(matches!(collect::<usize, &str>(None), Err(Error::ActorGone)));
}

#[test]
fn a_reported_reply_comes_back_as_the_resolvers() {
    assert!(matches!(collect(Some(report::<usize, &str>(Ok(7)))), Ok(7)));
    assert!(matches!(
        collect(Some(report::<usize, &str>(Err("no")))),
        Err(Error::Resolve("no"))
    ));
}

#[test]
fn decide_resolves_requests_and_stops_on_anything_else() {
    assert!(matches!(decide(Some(Wrapper::Request(5))), Step::Resolve(5)));
    assert!(matches!(decide(Some(Wrapper::<u32>::ShutDown)), Step::Stop));
    assert!(matches!(decide(None::<Wrapper<u32>>), Step::Stop));
}

#[test]
fn errors_describe_themselves() {
    assert_eq!(Error::Resolve(()).message(), "error while running resolver");
    assert_eq!(
        Error::<()>::SendOnClosedChannel.message(),
        "attempt to send on closed channel to the Actor"
    );
    assert_eq!(Error::<()>::ActorGone.message(), "actor closed the response channel");
}

#[test]
fn seal_keeps_the_request_and_opens_a_reply_channel_for_one_reply() {
    let (msg, rx) = Message::seal(Add(4, 5));
    assert_eq!((msg.req.0, msg.req.1), (4, 5));
    assert_eq!(rx.capacity(), Some(1));

    assert!(msg.tx.send(Ok(9)).is_ok());
    assert!(matches!(await_reply::<Add>(rx), Ok(9)));
}

#[test]
fn serve_ends_the_loop_on_shutdown() {
    let (_agent, actor_loop) = launch::<TestActor, Example>(TestActor);
    assert!(actor_loop.serve(Some(Wrapper::ShutDown)).is_none());
}

#[test]
fn serve_ends_the_loop_on_a_closed_inbox() {
    let (_agent, actor_loop) = launch::<TestActor, Example>(TestActor);
    assert!(actor_loop.serve(None).is_none());
}

#[test]
fn serve_resolves_a_request_and_goes_on() {
    let (_agent, actor_loop) = launch::<TestActor, Example>(TestActor);
    let (wrapped, rx) = Add(20, 22).into_wrapped_pair();

    assert!(actor_loop.serve(Some(Wrapper::Request(wrapped))).is_some());
    assert!(matches!(await_reply::<Add>(rx), Ok(42)));
}

#[test]
fn the_loop_ends_when_every_agent_is_gone() {
    let (agent, actor_loop) = launch::<TestActor, Example>(TestActor);
    let cloned = agent.clone();
    drop(agent);
    drop(cloned);

    assert!(actor_loop.step().is_none());
}

#[test]
fn what_is_queued_is_served_after_the_last_agent_is_gone() {
    let (agent, actor_loop) = launch::<TestActor, Example>(TestActor);
    let (wrapped, rx) = Add(1, 2).into_wrapped_pair();
    assert!(agent.enqueue(wrapped));
    drop(agent);

    let actor_loop = actor_loop.step().expect("a request was queued");
    assert!(matches!(await_reply::<Add>(rx), Ok(3)));
    assert!(actor_loop.step().is_none());
}

#[test]
fn a_caller_is_told_when_the_actor_is_gone() {
    let (agent, actor_loop) = launch::<TestActor, Example>(TestActor);
    let (wrapped, rx) = Add(1, 2).into_wrapped_pair();
    assert!(agent.enqueue(wrapped));

    drop(actor_loop);

    assert!(matches!(await_reply::<Add>(rx), Err(Error::ActorGone)));
}

#[test]
fn requests_behind_a_shutdown_are_abandoned() {
    let (agent, actor_loop) = launch::<TestActor, Example>(TestActor);
    let cloned = agent.clone();

    let (before, rx_before) = Add(1, 2).into_wrapped_pair();
    assert!(cloned.enqueue(before));
    agent.shutdown();
    let (behind, rx_behind) = Add(3, 4).into_wrapped_pair();
    assert!(cloned.enqueue(behind));

    let actor_loop = actor_loop.step().expect("the request before the shutdown");
    assert!(actor_loop.step().is_none());

    assert!(matches!(await_reply::<Add>(rx_before), Ok(3)));
    assert!(matches!(await_reply::<Add>(rx_behind), Err(Error::ActorGone)));
    assert!(!cloned.enqueue(Add(5, 6).into_wrapped_pair().0));
}

#[test]
fn enqueue_is_refused_once_the_loop_has_ended() {
    let (agent, actor_loop) = launch::<TestActor, Example>(TestActor);
    drop(actor_loop);

    assert!(!agent.enqueue(Add(1, 2).into_wrapped_pair().0));
}

#[test]
fn shutdown_of_an_ended_actor_does_nothing() {
    let (agent, actor_loop) = launch::<TestActor, Example>(TestActor);
    let cloned = agent.clone();
    drop(actor_loop);

    agent.shutdown();

    assert!(matches!(cloned.send(Concat("a", "b")), Err(Error::SendOnClosedChannel)));
}

#[test]
fn handles_and_resolvers_fail_on_a_closed_channel() {
    let (mut agent, actor_loop) = launch::<TestActor, Example>(TestActor);
    drop(actor_loop);

    let res = Handle::<Example2>::handle(&agent, Add(1, 2));
    assert!(matches!(res, Err(Error::SendOnClosedChannel)));

    let res = Handle::<Example>::handle(&agent, Failure(true));
    assert!(matches!(res, Err(Error::SendOnClosedChannel)));

    let res = agent.resolve_request(Concat("hello,", " world!"));
    assert!(matches!(res, Err(Error::SendOnClosedChannel)));
}

#[test]
fn an_agent_waits_on_the_reply_channel_it_is_given() {
    let (agent, actor_loop) = launch::<TestActor, Example>(TestActor);

    let (first, answered) = Add(1, 2).into_wrapped_pair();
    assert!(agent.enqueue(first));
    let actor_loop = actor_loop.step().expect("a request was queued");

    let (second, rx_second): (Example2, _) = Concat("hello,", " world!").into_wrapped_pair();
    let res = agent.map_and_resolve::<Add>(second, answered);
    assert!(matches!(res, Ok(3)));

    let _actor_loop = actor_loop.step().expect("the second request was queued");
    assert_eq!(await_reply::<Concat>(rx_second).unwrap(), "hello, world!");
}

#[test]
fn replies_do_not_cross() {
    let (agent, actor_loop) = launch::<TestActor, Example>(TestActor);
    let first_agent = agent.clone();
    let second_agent = agent.clone();

    let (a, rx_a) = Add(1, 2).into_wrapped_pair();
    let (b, rx_b) = Add(10, 20).into_wrapped_pair();
    let (c, rx_c) = Concat("x", "y").into_wrapped_pair();
    let (d, rx_d) = Failure(true).into_wrapped_pair();
    assert!(second_agent.enqueue(b));
    assert!(first_agent.enqueue(d));
    assert!(agent.enqueue(a));
    assert!(second_agent.enqueue(c));

    let mut running = Some(actor_loop);
    for _ in 0..4 {
        running = running.and_then(|actor_loop| actor_loop.step());
    }
    assert!(running.is_some());

    assert_eq!(await_reply::<Concat>(rx_c).unwrap(), "xy");
    assert!(matches!(await_reply::<Add>(rx_a), Ok(3)));
    assert!(matches!(await_reply::<Failure>(rx_d), Err(Error::Resolve("failed"))));
    assert!(matches!(await_reply::<Add>(rx_b), Ok(30)));
}

#[test]
fn requests_are_resolved_in_the_order_they_were_sent() {
    let (agent, actor_loop) = launch::<Tally, Message<Bump>>(Tally { total: 0 });

    let (one, rx_one) = Bump(1).into_wrapped_pair();
    let (two, rx_two) = Bump(2).into_wrapped_pair();
    let (three, rx_three) = Bump(3).into_wrapped_pair();
    assert!(agent.enqueue(one));
    assert!(agent.enqueue(two));
    assert!(agent.enqueue(three));

    let mut running = Some(actor_loop);
    for _ in 0..3 {
        running = running.and_then(|actor_loop| actor_loop.step());
    }

    assert!(matches!(await_reply::<Bump>(rx_three), Ok(6)));
    assert!(matches!(await_reply::<Bump>(rx_two), Ok(3)));
    assert!(matches!(await_reply::<Bump>(rx_one), Ok(1)));
}

#[test]
fn a_failed_resolution_does_not_end_the_loop() {
    let agent = Stepped::<Example>::start();

    assert!(matches!(agent.send(Failure(true)), Err(Error::Resolve("failed"))));
    assert!(agent.is_running());
    assert_eq!(agent.send(Failure(false)).unwrap(), "succeeded");
    assert_eq!(agent.send(Add(2, 2)).unwrap(), 4);
}

#[test]
fn a_caller_that_gave_up_is_no_fault_of_the_actor() {
    let (agent, actor_loop) = launch::<TestActor, Example>(TestActor);

    let (wrapped, rx) = Add(1, 2).into_wrapped_pair();
    assert!(agent.enqueue(wrapped));
    drop(rx);
    let actor_loop = actor_loop.step().expect("the loop goes on");

    let (wrapped, rx) = Add(3, 4).into_wrapped_pair();
    assert!(agent.enqueue(wrapped));
    assert!(actor_loop.step().is_some());
    assert!(matches!(await_reply::<Add>(rx), Ok(7)));
}

#[test]
fn a_subset_envelope_becomes_the_same_envelope_of_the_superset() {
    let (child, rx) = Add(1, 2).into_wrapped_pair();
    let child: Example2 = child;

    match Example::from(child) {
        Example::Add(msg) => {
            assert_eq!((msg.req.0, msg.req.1), (1, 2));
            assert!(msg.tx.send(Ok(3)).is_ok());
        }
        _ => panic!("the envelope changed its variant"),
    }
    assert!(matches!(await_reply::<Add>(rx), Ok(3)));

    let (child, _rx): (Example2, _) = Concat("a", "b").into_wrapped_pair();
    assert!(matches!(Example::from(child), Example::Concat(_)));
}

#[test]
fn a_superset_agent_answers_as_an_agent_of_the_subset_does() {
    fn ask<H: Handle<Example2>>(h: &H) -> (Reply<Add>, Reply<Concat>, Reply<Add>) {
        (h.handle(Add(1, 2)), h.handle(Concat("hello,", " world!")), h.handle(Add(40, 2)))
    }

    let exact = ask(&Stepped::<Example2>::start());
    let larger = ask(&Stepped::<Example>::start());

    assert!(matches!(exact.0, Ok(3)));
    assert!(matches!(larger.0, Ok(3)));
    assert_eq!(exact.1.unwrap(), "hello, world!");
    assert_eq!(larger.1.unwrap(), "hello, world!");
    assert!(matches!(exact.2, Ok(42)));
    assert!(matches!(larger.2, Ok(42)));
}

// The vocabulary [Add, Concat, Failure] once more, for calls that have to
// return on the caller's own thread: each request is answered as it is
// sealed, so the reply lies on the reply channel before the envelope reaches
// the inbox, and the agent finds it there without the loop taking a turn.
enum Prompt {
    Add(Message<Add>),
    Concat(Message<Concat>),
    Failure(Message<Failure>),
}

// The subset [Add, Concat] of it.
enum Prompt2 {
    Add(Message<Add>),
    Concat(Message<Concat>),
}

/// Seals `req` and puts what a `TestActor` resolves for its twin on the
/// envelope's reply channel.
fn seal_answered<R>(req: R, twin: R) -> (Message<R>, Receiver<Reply<R>>)
where
    R: Request,
    TestActor: Resolve<R>,
{
    let (msg, rx) = Message::seal(req);
    assert!(msg.tx.send(report(TestActor.resolve(twin))).is_ok());
    (msg, rx)
}

impl<A> Vocabulary<A> for Prompt
where
    A: Resolve<Add> + Resolve<Concat> + Resolve<Failure>,
{
    fn resolve_with(self, actor: &mut A) {
        match self {
            Prompt::Add(msg) => msg.resolve_with(actor),
            Prompt::Concat(msg) => msg.resolve_with(actor),
            Prompt::Failure(msg) => msg.resolve_with(actor),
        }
    }
}

impl Wrappable<Prompt> for Add {
    fn into_wrapped_pair(self) -> (Prompt, Receiver<Reply<Self>>) {
        let twin = Add(self.0, self.1);
        let (msg, rx) = seal_answered(self, twin);
        (Prompt::Add(msg), rx)
    }
}

impl Wrappable<Prompt> for Concat {
    fn into_wrapped_pair(self) -> (Prompt, Receiver<Reply<Self>>) {
        let twin = Concat(self.0, self.1);
        let (msg, rx) = seal_answered(self, twin);
        (Prompt::Concat(msg), rx)
    }
}

impl Wrappable<Prompt> for Failure {
    fn into_wrapped_pair(self) -> (Prompt, Receiver<Reply<Self>>) {
        let twin = Failure(self.0);
        let (msg, rx) = seal_answered(self, twin);
        (Prompt::Failure(msg), rx)
    }
}

impl Wrappable<Prompt2> for Add {
    fn into_wrapped_pair(self) -> (Prompt2, Receiver<Reply<Self>>) {
        let twin = Add(self.0, self.1);
        let (msg, rx) = seal_answered(self, twin);
        (Prompt2::Add(msg), rx)
    }
}

impl Wrappable<Prompt2> for Concat {
    fn into_wrapped_pair(self) -> (Prompt2, Receiver<Reply<Self>>) {
        let twin = Concat(self.0, self.1);
        let (msg, rx) = seal_answered(self, twin);
        (Prompt2::Concat(msg), rx)
    }
}

impl From<Prompt2> for Prompt {
    fn from(child: Prompt2) -> Self {
        match child {
            Prompt2::Add(msg) => Prompt::Add(msg),
            Prompt2::Concat(msg) => Prompt::Concat(msg),
        }
    }
}

/// Runs the loop for as many iterations as there are envelopes in the inbox,
/// and tells whether it still runs.
fn serve_queued(actor_loop: ActorLoop<TestActor, Prompt>, queued: usize) -> bool {
    let mut running = Some(actor_loop);
    for _ in 0..queued {
        running = running.and_then(|actor_loop| actor_loop.step());
    }
    running.is_some()
}

#[test]
fn send_returns_what_the_resolver_answered() {
    let (agent, actor_loop) = launch::<TestActor, Prompt>(TestActor);

    let res = agent.send(Add(1, 2)).unwrap();
    assert_eq!(res, 3);

    let res = agent.send(Concat("hello,", " world!")).unwrap();
    assert_eq!(res, "hello, world!");

    assert_eq!(agent.send(Failure(false)).unwrap(), "succeeded");
    assert!(matches!(agent.send(Failure(true)), Err(Error::Resolve("failed"))));

    // Every one of the four envelopes reached the inbox of the loop.
    assert!(serve_queued(actor_loop, 4));
}

#[test]
fn send_on_a_clone_reaches_the_same_inbox() {
    let (agent, actor_loop) = launch::<TestActor, Prompt>(TestActor);
    let cloned = agent.clone();

    assert!(matches!(cloned.send(Add(20, 22)), Ok(42)));
    assert!(matches!(agent.send(Add(1, 2)), Ok(3)));
    drop(agent);
    drop(cloned);

    // Two envelopes lie in the one inbox, and then the loop ends by itself.
    let actor_loop = actor_loop.step().expect("the envelope sent on the clone");
    let actor_loop = actor_loop.step().expect("the envelope sent on the agent");
    assert!(actor_loop.step().is_none());
}

#[test]
fn an_agent_handles_the_requests_of_a_subset() {
    fn generic1<H: Handle<Prompt2>>(h: &H) -> Reply<Add> {
        h.handle(Add(1, 2))
    }

    fn generic2<H: Handle<Prompt2>>(h: &H) -> Reply<Concat> {
        h.handle(Concat("hello,", " world!"))
    }

    let (agent, actor_loop) = launch::<TestActor, Prompt>(TestActor);

    let res = generic1(&agent).expect("to resolve");
    assert_eq!(res, 3);

    let res = generic2(&agent).expect("to resolve");
    assert_eq!(res, "hello, world!");

    assert!(serve_queued(actor_loop, 2));
}

#[test]
fn an_agent_handles_its_own_vocabulary_as_it_sends() {
    let (agent, actor_loop) = launch::<TestActor, Prompt>(TestActor);

    let handled = Handle::<Prompt>::handle(&agent, Failure(true));
    assert!(matches!(handled, Err(Error::Resolve("failed"))));
    let sent = agent.send(Failure(true));
    assert!(matches!(sent, Err(Error::Resolve("failed"))));

    let handled = Handle::<Prompt>::handle(&agent, Add(1, 2));
    assert!(matches!(handled, Ok(3)));

    assert!(serve_queued(actor_loop, 3));
}

#[test]
fn an_agent_resolves_requests_by_sending_them() {
    fn generic<H>(mut h: H)
    where
        H: ResolveRequest<Add> + ResolveRequest<Concat>,
    {
        let n = h.resolve_request(Add(1, 2)).unwrap();
        assert_eq!(n, 3);

        let s = h.resolve_request(Concat("hello,", " world!")).unwrap();
        assert_eq!(s, "hello, world!");
    }

    let (agent, actor_loop) = launch::<TestActor, Prompt>(TestActor);

    generic(agent.clone());

    assert!(serve_queued(actor_loop, 2));
    drop(agent);
}

#[test]
fn a_handle_on_a_clone_fails_after_shutdown() {
    let (agent, actor_loop) = launch::<TestActor, Prompt>(TestActor);
    let cloned = agent.clone();

    agent.shutdown();
    assert!(actor_loop.step().is_none());

    let res = Handle::<Prompt2>::handle(&cloned, Add(1, 2));
    assert!(matches!(res, Err(Error::SendOnClosedChannel)));
}

#[test]
fn shutdown_alone_ends_the_loop_while_a_clone_is_left() {
    let (agent, actor_loop) = launch::<TestActor, Example>(TestActor);
    let cloned = agent.clone();

    agent.shutdown();

    assert!(actor_loop.step().is_none());
    drop(cloned);
}

#[test]
fn shutdown_is_served_behind_what_was_sent_before_it() {
    let (agent, actor_loop) = launch::<TestActor, Example>(TestActor);
    let cloned = agent.clone();
    let (first, rx_first) = Add(1, 2).into_wrapped_pair();
    let (second, rx_second) = Add(3, 4).into_wrapped_pair();
    assert!(cloned.enqueue(first));
    assert!(cloned.enqueue(second));

    agent.shutdown();
    cloned.shutdown();

    let actor_loop = actor_loop.step().expect("the first request");
    let actor_loop = actor_loop.step().expect("the second request");
    assert!(actor_loop.step().is_none());
    assert!(matches!(await_reply::<Add>(rx_first), Ok(3)));
    assert!(matches!(await_reply::<Add>(rx_second), Ok(7)));
}
