//! The relay engine's decision core.
//!
//! The engine is a small state machine. The surrounding driver performs the
//! blocking network and stream work (bind, accept, dial, copy), hands each
//! outcome back as an event, and carries out the action the machine picks:
//! bind and dial failures are fatal, a per-attempt accept failure keeps the
//! listener alive, a copy runs once and its failure is fatal, and exactly
//! one connection is ever served.

use vstd::prelude::*;

verus! {

/// The server engine's state: it binds, listens, relays one accepted
/// connection to the output stream, and stops.
#[derive(Clone, Copy, Debug, PartialEq, Eq, Structural)]
pub enum ServerState {
    Binding,
    Listening,
    Relaying,
    Finished,
    Failed,
}

/// What the server's driver observed while carrying out the last action.
#[derive(Clone, Copy, Debug, PartialEq, Eq, Structural)]
pub enum ServerEvent {
    Bound,
    BindFailed,
    Accepted,
    AcceptFailed,
    CopyEnded,
    CopyFailed,
}

/// What the server's driver is to do next.
#[derive(Clone, Copy, Debug, PartialEq, Eq, Structural)]
pub enum ServerAction {
    AwaitConnection,
    CopyToOutput,
    Finish,
    FailWithError,
}

/// The server engine's transition table: the state reached and the action
/// owed after `event` arrives in `state`. `None` for an event that cannot
/// arise in that state; in particular, no event continues a finished or
/// failed run.
pub open spec fn server_transition(state: ServerState, event: ServerEvent) -> Option<
    (ServerState, ServerAction),
> {
    match (state, event) {
        (ServerState::Binding, ServerEvent::Bound) => Some(
            (ServerState::Listening, ServerAction::AwaitConnection),
        ),
        (ServerState::Binding, ServerEvent::BindFailed) => Some(
            (ServerState::Failed, ServerAction::FailWithError),
        ),
        (ServerState::Listening, ServerEvent::Accepted) => Some(
            (ServerState::Relaying, ServerAction::CopyToOutput),
        ),
        (ServerState::Listening, ServerEvent::AcceptFailed) => Some(
            (ServerState::Listening, ServerAction::AwaitConnection),
        ),
        (ServerState::Relaying, ServerEvent::CopyEnded) => Some(
            (ServerState::Finished, ServerAction::Finish),
        ),
        (ServerState::Relaying, ServerEvent::CopyFailed) => Some(
            (ServerState::Failed, ServerAction::FailWithError),
        ),
        _ => None,
    }
}

/// One step of the server engine, per [`server_transition`].
pub fn server_step(state: ServerState, event: ServerEvent) -> (r: Option<
    (ServerState, ServerAction),
>)
    ensures
        r == server_transition(state, event),
{
    match (state, event) {
        (ServerState::Binding, ServerEvent::Bound) => Some(
            (ServerState::Listening, ServerAction::AwaitConnection),
        ),
        (ServerState::Binding, ServerEvent::BindFailed) => Some(
            (ServerState::Failed, ServerAction::FailWithError),
        ),
        (ServerState::Listening, ServerEvent::Accepted) => Some(
            (ServerState::Relaying, ServerAction::CopyToOutput),
        ),
        (ServerState::Listening, ServerEvent::AcceptFailed) => Some(
            (ServerState::Listening, ServerAction::AwaitConnection),
        ),
        (ServerState::Relaying, ServerEvent::CopyEnded) => Some(
            (ServerState::Finished, ServerAction::Finish),
        ),
        (ServerState::Relaying, ServerEvent::CopyFailed) => Some(
            (ServerState::Failed, ServerAction::FailWithError),
        ),
        _ => None,
    }
}

/// The state the server engine reaches from `state` after the events of
/// `events`, in order; `None` if some event cannot arise where it occurs.
pub open spec fn server_run(state: ServerState, events: Seq<ServerEvent>) -> Option<ServerState>
    decreases events.len(),
{
    if events.len() == 0 {
        Some(state)
    } else {
        match server_transition(state, events[0]) {
            Some((next, _)) => server_run(next, events.subrange(1, events.len() as int)),
            None => None,
        }
    }
}

/// Accept-loop resilience: from the listening state, any number of failed
/// accept attempts followed by one accepted connection and one completed
/// copy still serves that connection and finishes the engine.
pub proof fn lemma_accept_loop_resilience(failures: Seq<ServerEvent>)
    requires
        forall|i: int| 0 <= i < failures.len() ==> failures[i] is AcceptFailed,
    ensures
        server_run(
            ServerState::Listening,
            failures + seq![ServerEvent::Accepted, ServerEvent::CopyEnded],
        ) == Some(ServerState::Finished),
    decreases failures.len(),
{
    let tail = seq![ServerEvent::Accepted, ServerEvent::CopyEnded];
    let events = failures + tail;
    if failures.len() == 0 {
        let after_accept = seq![ServerEvent::CopyEnded];
        assert(after_accept.subrange(1, 1) =~= Seq::<ServerEvent>::empty());
        assert(server_run(ServerState::Finished, after_accept.subrange(1, 1)) == Some(
            ServerState::Finished,
        ));
        assert(server_run(ServerState::Relaying, after_accept) == Some(ServerState::Finished));
        assert(events =~= tail);
        assert(events[0] == ServerEvent::Accepted);
        assert(events.subrange(1, events.len() as int) =~= after_accept);
    } else {
        assert(events[0] == failures[0]);
        assert(failures[0] is AcceptFailed);
        let rest = failures.subrange(1, failures.len() as int);
        assert(forall|i: int| 0 <= i < rest.len() ==> #[trigger] rest[i] == failures[i + 1]);
        lemma_accept_loop_resilience(rest);
        assert(events.subrange(1, events.len() as int) =~= rest + tail);
    }
}

/// The engine serves one connection and stops: no event continues a
/// finished or failed run.
pub proof fn lemma_server_stops(state: ServerState, event: ServerEvent)
    requires
        state is Finished || state is Failed,
    ensures
        server_transition(state, event) is None,
{
}

/// The client engine's state: it dials, relays the input stream to the
/// connection, and stops.
#[derive(Clone, Copy, Debug, PartialEq, Eq, Structural)]
pub enum ClientState {
    Dialing,
    Relaying,
    Finished,
    Failed,
}

/// What the client's driver observed while carrying out the last action.
#[derive(Clone, Copy, Debug, PartialEq, Eq, Structural)]
pub enum ClientEvent {
    Connected,
    ConnectFailed,
    CopyEnded,
    CopyFailed,
}

/// What the client's driver is to do next.
#[derive(Clone, Copy, Debug, PartialEq, Eq, Structural)]
pub enum ClientAction {
    CopyFromInput,
    Finish,
    FailWithError,
}

/// The client engine's transition table: a dial failure and a copy failure
/// are fatal, and one completed copy finishes the run.
pub open spec fn client_transition(state: ClientState, event: ClientEvent) -> Option<
    (ClientState, ClientAction),
> {
    match (state, event) {
        (ClientState::Dialing, ClientEvent::Connected) => Some(
            (ClientState::Relaying, ClientAction::CopyFromInput),
        ),
        (ClientState::Dialing, ClientEvent::ConnectFailed) => Some(
            (ClientState::Failed, ClientAction::FailWithError),
        ),
        (ClientState::Relaying, ClientEvent::CopyEnded) => Some(
            (ClientState::Finished, ClientAction::Finish),
        ),
        (ClientState::Relaying, ClientEvent::CopyFailed) => Some(
            (ClientState::Failed, ClientAction::FailWithError),
        ),
        _ => None,
    }
}

/// One step of the client engine, per [`client_transition`].
pub fn client_step(state: ClientState, event: ClientEvent) -> (r: Option<
    (ClientState, ClientAction),
>)
    ensures
        r == client_transition(state, event),
{
    match (state, event) {
        (ClientState::Dialing, ClientEvent::Connected) => Some(
            (ClientState::Relaying, ClientAction::CopyFromInput),
        ),
        (ClientState::Dialing, ClientEvent::ConnectFailed) => Some(
            (ClientState::Failed, ClientAction::FailWithError),
        ),
        (ClientState::Relaying, ClientEvent::CopyEnded) => Some(
            (ClientState::Finished, ClientAction::Finish),
        ),
        (ClientState::Relaying, ClientEvent::CopyFailed) => Some(
            (ClientState::Failed, ClientAction::FailWithError),
        ),
        _ => None,
    }
}

} // verus!
