//! One connected client: first the greeting, then every update, in order, until either side leaves.

use crate::hub::{
    greeting, greeting_then_updates_is_the_latest, messages, no_pushes, published_all, Latest,
};
use crate::model::{Message, Push};
use vstd::prelude::*;

verus! {

/// What a session is told.
pub enum ClientEvent<F> {
    /// The push that was last asked for has been sent.
    Sent,
    /// It could not be sent.
    SendFailed,
    /// A push was published.
    Update(Push<F>),
    /// The client was too slow, and this many pushes are lost to it.
    Lagged(u64),
    /// No more pushes will be published.
    UpdatesClosed,
    /// The client said something; nothing it says is of interest.
    Inbound,
    /// The client closed the connection, or it broke.
    PeerGone,
}

/// The contents of a `ClientEvent`.
pub enum ClientInput<F> {
    Sent,
    SendFailed,
    Update(Message<F>),
    Lagged(u64),
    UpdatesClosed,
    Inbound,
    PeerGone,
}

impl<F> View for ClientEvent<F> {
    type V = ClientInput<F>;

    open spec fn view(&self) -> ClientInput<F> {
        match self {
            ClientEvent::Sent => ClientInput::Sent,
            ClientEvent::SendFailed => ClientInput::SendFailed,
            ClientEvent::Update(p) => ClientInput::Update(p@),
            ClientEvent::Lagged(n) => ClientInput::Lagged(*n),
            ClientEvent::UpdatesClosed => ClientInput::UpdatesClosed,
            ClientEvent::Inbound => ClientInput::Inbound,
            ClientEvent::PeerGone => ClientInput::PeerGone,
        }
    }
}

/// What a session asks for.
#[derive(Debug, PartialEq)]
pub enum ClientAction<F> {
    /// Send this push, then report how that went.
    Send(Push<F>),
    /// Wait for the next event.
    Wait,
    /// Hang up.
    Disconnect,
}

/// The contents of a `ClientAction`.
pub enum ClientOutput<F> {
    Send(Message<F>),
    Wait,
    Disconnect,
}

impl<F> View for ClientAction<F> {
    type V = ClientOutput<F>;

    open spec fn view(&self) -> ClientOutput<F> {
        match self {
            ClientAction::Send(p) => ClientOutput::Send(p@),
            ClientAction::Wait => ClientOutput::Wait,
            ClientAction::Disconnect => ClientOutput::Disconnect,
        }
    }
}

/// Where a session stands.
#[derive(Debug, PartialEq)]
pub enum ClientSession<F> {
    /// A push is being sent, and these come after it.
    Sending(Vec<Push<F>>),
    /// Everything published so far has been sent.
    Waiting,
    /// The session is over.
    Ended,
}

/// The contents of a `ClientSession`.
pub enum SessionState<F> {
    Sending(Seq<Message<F>>),
    Waiting,
    Ended,
}

impl<F> View for ClientSession<F> {
    type V = SessionState<F>;

    open spec fn view(&self) -> SessionState<F> {
        match self {
            ClientSession::Sending(q) => SessionState::Sending(messages(q@)),
            ClientSession::Waiting => SessionState::Waiting,
            ClientSession::Ended => SessionState::Ended,
        }
    }
}

/// The state and action once the pushes before `queue` have been sent.
pub open spec fn next_of_queue<F>(queue: Seq<Message<F>>) -> (SessionState<F>, ClientOutput<F>) {
    if queue.len() == 0 {
        (SessionState::Waiting, ClientOutput::Wait)
    } else {
        (SessionState::Sending(queue.drop_first()), ClientOutput::Send(queue[0]))
    }
}

/// The state and action that follow an event.
pub open spec fn session_step<F>(state: SessionState<F>, input: ClientInput<F>) -> (
    SessionState<F>,
    ClientOutput<F>,
) {
    match (state, input) {
        (SessionState::Ended, _) => (SessionState::Ended, ClientOutput::Disconnect),
        (_, ClientInput::SendFailed) => (SessionState::Ended, ClientOutput::Disconnect),
        (_, ClientInput::UpdatesClosed) => (SessionState::Ended, ClientOutput::Disconnect),
        (_, ClientInput::PeerGone) => (SessionState::Ended, ClientOutput::Disconnect),
        (SessionState::Waiting, ClientInput::Update(m)) => (
            SessionState::Sending(Seq::empty()),
            ClientOutput::Send(m),
        ),
        (SessionState::Sending(q), ClientInput::Update(m)) => (
            SessionState::Sending(q.push(m)),
            ClientOutput::Wait,
        ),
        (SessionState::Sending(q), ClientInput::Sent) => next_of_queue(q),
        (s, _) => (s, ClientOutput::Wait),
    }
}

fn next_in_queue<F>(queue: Vec<Push<F>>) -> (next: (ClientSession<F>, ClientAction<F>))
    ensures
        (next.0@, next.1@) == next_of_queue(messages(queue@)),
{
    let mut rest: Vec<Push<F>> = queue;
    if rest.len() == 0 {
        (ClientSession::Waiting, ClientAction::Wait)
    } else {
        let first: Push<F> = rest.remove(0);
        assert(messages(rest@) =~= messages(queue@).drop_first());
        (ClientSession::Sending(rest), ClientAction::Send(first))
    }
}

impl<F> ClientSession<F> {
    /// A session that greets the client with the given pushes, and the first thing to do.
    pub fn start(greeting: Vec<Push<F>>) -> (started: (Self, ClientAction<F>))
        ensures
            (started.0@, started.1@) == next_of_queue(messages(greeting@)),
    {
        next_in_queue(greeting)
    }

    /// Takes in one event, and says what to do.
    pub fn step(self, event: ClientEvent<F>) -> (next: (Self, ClientAction<F>))
        ensures
            (next.0@, next.1@) == session_step(self@, event@),
    {
        match (self, event) {
            (ClientSession::Ended, _) => (ClientSession::Ended, ClientAction::Disconnect),
            (_, ClientEvent::SendFailed) => (ClientSession::Ended, ClientAction::Disconnect),
            (_, ClientEvent::UpdatesClosed) => (ClientSession::Ended, ClientAction::Disconnect),
            (_, ClientEvent::PeerGone) => (ClientSession::Ended, ClientAction::Disconnect),
            (ClientSession::Waiting, ClientEvent::Update(push)) => {
                let rest: Vec<Push<F>> = Vec::new();
                assert(messages(rest@) =~= Seq::<Message<F>>::empty());
                (ClientSession::Sending(rest), ClientAction::Send(push))
            },
            (ClientSession::Sending(queue), ClientEvent::Update(push)) => {
                let mut rest: Vec<Push<F>> = queue;
                let ghost m = push@;
                rest.push(push);
                assert(messages(rest@) =~= messages(queue@).push(m));
                (ClientSession::Sending(rest), ClientAction::Wait)
            },
            (ClientSession::Sending(queue), ClientEvent::Sent) => next_in_queue(queue),
            (session, _) => (session, ClientAction::Wait),
        }
    }
}

/// A session so far: where it stands, and every push it has asked to send.
pub struct SessionRun<F> {
    pub state: SessionState<F>,
    pub sent: Seq<Message<F>>,
}

/// What a session has asked to send once it asks for `output`.
pub open spec fn with_output<F>(sent: Seq<Message<F>>, output: ClientOutput<F>) -> Seq<Message<F>> {
    match output {
        ClientOutput::Send(m) => sent.push(m),
        _ => sent,
    }
}

/// A session that starts with a greeting and takes in a row of events.
pub open spec fn session_run<F>(greeting: Seq<Message<F>>, inputs: Seq<ClientInput<F>>) -> SessionRun<
    F,
>
    decreases inputs.len(),
{
    if inputs.len() == 0 {
        let (state, output) = next_of_queue(greeting);
        SessionRun { state, sent: with_output(Seq::empty(), output) }
    } else {
        let before = session_run(greeting, inputs.drop_last());
        let (state, output) = session_step(before.state, inputs.last());
        SessionRun { state, sent: with_output(before.sent, output) }
    }
}

/// The pushes among a row of events.
pub open spec fn updates_in<F>(inputs: Seq<ClientInput<F>>) -> Seq<Message<F>>
    decreases inputs.len(),
{
    if inputs.len() == 0 {
        Seq::empty()
    } else {
        match inputs.last() {
            ClientInput::Update(m) => updates_in(inputs.drop_last()).push(m),
            _ => updates_in(inputs.drop_last()),
        }
    }
}

/// What a session still has to send.
pub open spec fn still_to_send<F>(state: SessionState<F>) -> Seq<Message<F>> {
    match state {
        SessionState::Sending(q) => q,
        _ => Seq::empty(),
    }
}

/// Whatever happens, a client is sent the greeting and then the updates it was told of, each once
/// and in order: all of them are sent or waiting to be while the session lasts, and once it is over
/// what was sent is the front part of them.
pub proof fn client_gets_greeting_then_updates<F>(
    greeting: Seq<Message<F>>,
    inputs: Seq<ClientInput<F>>,
)
    ensures
        ({
            let run = session_run(greeting, inputs);
            let due = greeting + updates_in(inputs);
            &&& run.sent.is_prefix_of(due)
            &&& !(run.state is Ended) ==> run.sent + still_to_send(run.state) == due
        }),
    decreases inputs.len(),
{
    if inputs.len() == 0 {
        let run = session_run(greeting, inputs);
        assert(greeting + updates_in(inputs) =~= greeting);
        assert(run.sent + still_to_send(run.state) =~= greeting);
    } else {
        let head = inputs.drop_last();
        client_gets_greeting_then_updates(greeting, head);
        let before = session_run(greeting, head);
        let run = session_run(greeting, inputs);
        let due_before = greeting + updates_in(head);
        let due = greeting + updates_in(inputs);
        match inputs.last() {
            ClientInput::Update(m) => {
                assert(due =~= due_before.push(m));
            },
            _ => {},
        }
        if !(run.state is Ended) {
            assert(run.sent + still_to_send(run.state) =~= due);
        }
    }
}

/// A session that has caught up has sent the whole greeting and every update.
pub proof fn waiting_client_has_everything<F>(
    greeting: Seq<Message<F>>,
    inputs: Seq<ClientInput<F>>,
)
    requires
        session_run(greeting, inputs).state is Waiting,
    ensures
        session_run(greeting, inputs).sent == greeting + updates_in(inputs),
{
    client_gets_greeting_then_updates(greeting, inputs);
    let run = session_run(greeting, inputs);
    assert(run.sent + Seq::<Message<F>>::empty() =~= run.sent);
}

/// A client that has caught up and missed nothing knows the latest push of every kind, also where it
/// subscribed before it was greeted: `at_start` is what the hub held when the client subscribed, and
/// the first `k` updates were published before the greeting was put together.
pub proof fn caught_up_client_knows_the_latest<F>(
    at_start: Latest<F>,
    k: int,
    inputs: Seq<ClientInput<F>>,
)
    requires
        0 <= k <= updates_in(inputs).len(),
        session_run(
            greeting(published_all(at_start, updates_in(inputs).take(k))),
            inputs,
        ).state is Waiting,
    ensures
        published_all(
            no_pushes(),
            session_run(
                greeting(published_all(at_start, updates_in(inputs).take(k))),
                inputs,
            ).sent,
        ) == published_all(at_start, updates_in(inputs)),
{
    let updates = updates_in(inputs);
    waiting_client_has_everything(greeting(published_all(at_start, updates.take(k))), inputs);
    greeting_then_updates_is_the_latest(at_start, updates.take(k), updates.skip(k));
    assert(updates.take(k) + updates.skip(k) =~= updates);
}

/// A session ends exactly when sending fails, publishing ends or the client is gone, and then stays
/// ended; nothing else that a client says or misses ends it.
pub proof fn session_ends_only_for_cause<F>(state: SessionState<F>, input: ClientInput<F>)
    ensures
        session_step(state, input).0 is Ended <==> {
            ||| state is Ended
            ||| input is SendFailed
            ||| input is UpdatesClosed
            ||| input is PeerGone
        },
        session_step(state, input).0 is Ended <==> session_step(state, input).1 is Disconnect,
{
}

/// A session never holds anything back: it starts by sending the first push of the greeting, goes on with
/// the next one as soon as one was sent, sends an update at once if it is not sending, and keeps it for
/// later, after all others, if it is.
pub proof fn a_session_holds_nothing_back<F>(queue: Seq<Message<F>>, m: Message<F>)
    ensures
        queue.len() > 0 ==> next_of_queue(queue) == (
            SessionState::Sending(queue.skip(1)),
            ClientOutput::Send(queue[0]),
        ),
        queue.len() == 0 ==> next_of_queue(queue) == (
            SessionState::<F>::Waiting,
            ClientOutput::<F>::Wait,
        ),
        session_step(SessionState::Sending(queue), ClientInput::Sent) == next_of_queue(queue),
        session_step(SessionState::<F>::Waiting, ClientInput::Sent) == (
            SessionState::<F>::Waiting,
            ClientOutput::<F>::Wait,
        ),
        session_step(SessionState::Waiting, ClientInput::Update(m)) == (
            SessionState::Sending(Seq::<Message<F>>::empty()),
            ClientOutput::Send(m),
        ),
        session_step(SessionState::Sending(queue), ClientInput::Update(m)) == (
            SessionState::Sending(queue.push(m)),
            ClientOutput::<F>::Wait,
        ),
{
    if queue.len() > 0 {
        assert(queue.drop_first() =~= queue.skip(1));
    }
}

/// What a client says, and what it misses, changes nothing: nothing is sent for it, and nothing that is
/// waiting to be sent is lost.
pub proof fn idle_talk_changes_nothing<F>(state: SessionState<F>, input: ClientInput<F>)
    requires
        input is Inbound || input is Lagged,
    ensures
        session_step(state, input).0 == state,
        !(session_step(state, input).1 is Send),
{
}

/// The contents of a session, an event and an action are those of the pushes that they hold.
pub proof fn sessions_hold_their_pushes<F>(
    session: ClientSession<F>,
    event: ClientEvent<F>,
    action: ClientAction<F>,
)
    ensures
        session matches ClientSession::Sending(q) ==> session@ == SessionState::Sending(
            messages(q@),
        ),
        session is Waiting ==> session@ is Waiting,
        session is Ended ==> session@ is Ended,
        event matches ClientEvent::Update(p) ==> event@ == ClientInput::Update(p@),
        event is Sent ==> event@ is Sent,
        event is SendFailed ==> event@ is SendFailed,
        event is Lagged ==> event@ is Lagged,
        event is UpdatesClosed ==> event@ is UpdatesClosed,
        event is Inbound ==> event@ is Inbound,
        event is PeerGone ==> event@ is PeerGone,
        action matches ClientAction::Send(p) ==> action@ == ClientOutput::Send(p@),
        action is Wait ==> action@ is Wait,
        action is Disconnect ==> action@ is Disconnect,
{
}

} // verus!
