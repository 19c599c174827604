//! One attempt to deliver a command to the backend.
//!
//! A send is a straight line of bounded steps: validate the token, test
//! that the endpoint path exists, connect, write the token bytes, flush,
//! close.  The machine here decides each step and classifies each failure;
//! the I/O driver performs the [`ChannelAction`] it is handed and reports a
//! [`ChannelEvent`] back.  The protocol is fire-and-forget: a delivered
//! attempt means the bytes were handed to the OS transport, not that the
//! backend processed them.

use vstd::prelude::*;
use crate::channel::{
    ChannelAction, ChannelEvent, ChannelEventModel, IoOutcome, IoOutcomeModel, events_model,
    SEND_STEP_TIMEOUT_MS,
};
use crate::command::{Command, is_valid_token, parse_spec, parse_command};
use crate::error::{ErrorModel, SocketError};

verus! {

/// State of one send attempt.  The non-terminal states name the step the
/// driver must perform next.
#[derive(Debug, PartialEq, Eq)]
pub enum SendState {
    /// Next: test whether the endpoint path exists.
    CheckingEndpoint { command: Command },
    /// Next: open a connection to the endpoint.
    Connecting { command: Command },
    /// Next: write the command's token bytes.
    Writing { command: Command },
    /// Next: flush the connection to force delivery.
    Flushing,
    /// The token bytes were handed to the OS transport; the connection can
    /// be dropped, since the backend never answers.
    Delivered,
    /// The attempt is over and nothing more may be sent.
    Failed(SocketError),
}

/// Mathematical model of a [`SendState`].
pub enum SendStateModel {
    CheckingEndpoint { command: Command },
    Connecting { command: Command },
    Writing { command: Command },
    Flushing,
    Delivered,
    Failed(ErrorModel),
}

impl View for SendState {
    type V = SendStateModel;

    open spec fn view(&self) -> SendStateModel {
        match self {
            SendState::CheckingEndpoint { command } => SendStateModel::CheckingEndpoint {
                command: *command,
            },
            SendState::Connecting { command } => SendStateModel::Connecting { command: *command },
            SendState::Writing { command } => SendStateModel::Writing { command: *command },
            SendState::Flushing => SendStateModel::Flushing,
            SendState::Delivered => SendStateModel::Delivered,
            SendState::Failed(e) => SendStateModel::Failed(e@),
        }
    }
}

impl SendStateModel {
    /// A terminal attempt is over: delivered, or failed with its error.
    pub open spec fn is_terminal(self) -> bool {
        self is Delivered || self is Failed
    }
}

/// Cause recorded when the connection attempt outlives its time budget.
pub open spec fn connect_timeout_text() -> Seq<char> {
    "Connection timeout"@
}

/// Cause recorded when the write outlives its time budget.
pub open spec fn write_timeout_text() -> Seq<char> {
    "Send timeout"@
}

/// Cause recorded when the flush outlives its time budget.
pub open spec fn flush_timeout_text() -> Seq<char> {
    "Flush timeout"@
}

/// Description attached to a refused token.
pub open spec fn invalid_token_text(token: Seq<char>) -> Seq<char> {
    "Invalid command: "@ + token + ". Must be 'start', 'stop', or 'toggle'"@
}

/// Where an attempt for `token` begins: validation only, no I/O.  A valid
/// token proceeds to the endpoint check; anything else is already failed.
pub open spec fn start_send_model(token: Seq<char>) -> SendStateModel {
    match parse_spec(token) {
        Some(command) => SendStateModel::CheckingEndpoint { command },
        None => SendStateModel::Failed(ErrorModel::InvalidCommand(invalid_token_text(token))),
    }
}

/// The transition table of a send attempt.
///
/// Each step's failure keeps its own kind: a missing endpoint is
/// `BackendNotRunning`, a refused or timed-out connect is
/// `ConnectionFailed`, a failed or timed-out write or flush is
/// `SendFailed`.  A terminal state absorbs every event, and an observation
/// that does not answer the pending step changes nothing.
pub open spec fn send_step_model(s: SendStateModel, e: ChannelEventModel) -> SendStateModel {
    match s {
        SendStateModel::CheckingEndpoint { command } => match e {
            ChannelEventModel::EndpointChecked(true) => SendStateModel::Connecting { command },
            ChannelEventModel::EndpointChecked(false) => SendStateModel::Failed(
                ErrorModel::BackendNotRunning,
            ),
            ChannelEventModel::Io(_) => s,
        },
        SendStateModel::Connecting { command } => match e {
            ChannelEventModel::Io(IoOutcomeModel::Completed) => SendStateModel::Writing { command },
            ChannelEventModel::Io(IoOutcomeModel::TimedOut) => SendStateModel::Failed(
                ErrorModel::ConnectionFailed(connect_timeout_text()),
            ),
            ChannelEventModel::Io(IoOutcomeModel::Failed(cause)) => SendStateModel::Failed(
                ErrorModel::ConnectionFailed(cause),
            ),
            ChannelEventModel::EndpointChecked(_) => s,
        },
        SendStateModel::Writing { command: _ } => match e {
            ChannelEventModel::Io(IoOutcomeModel::Completed) => SendStateModel::Flushing,
            ChannelEventModel::Io(IoOutcomeModel::TimedOut) => SendStateModel::Failed(
                ErrorModel::SendFailed(write_timeout_text()),
            ),
            ChannelEventModel::Io(IoOutcomeModel::Failed(cause)) => SendStateModel::Failed(
                ErrorModel::SendFailed(cause),
            ),
            ChannelEventModel::EndpointChecked(_) => s,
        },
        SendStateModel::Flushing => match e {
            ChannelEventModel::Io(IoOutcomeModel::Completed) => SendStateModel::Delivered,
            ChannelEventModel::Io(IoOutcomeModel::TimedOut) => SendStateModel::Failed(
                ErrorModel::SendFailed(flush_timeout_text()),
            ),
            ChannelEventModel::Io(IoOutcomeModel::Failed(cause)) => SendStateModel::Failed(
                ErrorModel::SendFailed(cause),
            ),
            ChannelEventModel::EndpointChecked(_) => s,
        },
        SendStateModel::Delivered => s,
        SendStateModel::Failed(_) => s,
    }
}

/// What the driver must do in state `s`; `None` exactly when the attempt
/// is over, so a terminal attempt can cause no further I/O.
pub open spec fn send_action_model(s: SendStateModel) -> Option<ChannelAction> {
    match s {
        SendStateModel::CheckingEndpoint { command: _ } => Some(ChannelAction::CheckEndpoint),
        SendStateModel::Connecting { command: _ } => Some(
            ChannelAction::Connect { timeout_ms: SEND_STEP_TIMEOUT_MS },
        ),
        SendStateModel::Writing { command } => Some(
            ChannelAction::Write { command, timeout_ms: SEND_STEP_TIMEOUT_MS },
        ),
        SendStateModel::Flushing => Some(ChannelAction::Flush { timeout_ms: SEND_STEP_TIMEOUT_MS }),
        SendStateModel::Delivered => None,
        SendStateModel::Failed(_) => None,
    }
}

/// A whole attempt, as a fold of the transition table over the events the
/// driver reports, in order; events after a terminal state change nothing.
pub open spec fn run_send_model(s: SendStateModel, evs: Seq<ChannelEventModel>) -> SendStateModel
    decreases evs.len(),
{
    if evs.len() == 0 || s.is_terminal() {
        s
    } else {
        run_send_model(send_step_model(s, evs[0]), evs.drop_first())
    }
}

/// Begins a send attempt: validates the token and nothing else.
pub fn start_send(command: &str) -> (s: SendState)
    ensures
        s@ == start_send_model(command@),
{
    match parse_command(command) {
        Some(c) => SendState::CheckingEndpoint { command: c },
        None => {
            let msg = String::from_str("Invalid command: ").concat(command).concat(
                ". Must be 'start', 'stop', or 'toggle'",
            );
            SendState::Failed(SocketError::InvalidCommand(msg))
        },
    }
}

/// Advances an attempt by one observed event, exactly as the transition
/// table says.
pub fn send_step(state: SendState, event: ChannelEvent) -> (next: SendState)
    ensures
        next@ == send_step_model(state@, event@),
{
    match state {
        SendState::CheckingEndpoint { command } => match event {
            ChannelEvent::EndpointChecked(true) => SendState::Connecting { command },
            ChannelEvent::EndpointChecked(false) => SendState::Failed(
                SocketError::BackendNotRunning,
            ),
            ChannelEvent::Io(_) => SendState::CheckingEndpoint { command },
        },
        SendState::Connecting { command } => match event {
            ChannelEvent::Io(IoOutcome::Completed) => SendState::Writing { command },
            ChannelEvent::Io(IoOutcome::TimedOut) => SendState::Failed(
                SocketError::ConnectionFailed(String::from_str("Connection timeout")),
            ),
            ChannelEvent::Io(IoOutcome::Failed(cause)) => SendState::Failed(
                SocketError::ConnectionFailed(cause),
            ),
            ChannelEvent::EndpointChecked(_) => SendState::Connecting { command },
        },
        SendState::Writing { command } => match event {
            ChannelEvent::Io(IoOutcome::Completed) => SendState::Flushing,
            ChannelEvent::Io(IoOutcome::TimedOut) => SendState::Failed(
                SocketError::SendFailed(String::from_str("Send timeout")),
            ),
            ChannelEvent::Io(IoOutcome::Failed(cause)) => SendState::Failed(
                SocketError::SendFailed(cause),
            ),
            ChannelEvent::EndpointChecked(_) => SendState::Writing { command },
        },
        SendState::Flushing => match event {
            ChannelEvent::Io(IoOutcome::Completed) => SendState::Delivered,
            ChannelEvent::Io(IoOutcome::TimedOut) => SendState::Failed(
                SocketError::SendFailed(String::from_str("Flush timeout")),
            ),
            ChannelEvent::Io(IoOutcome::Failed(cause)) => SendState::Failed(
                SocketError::SendFailed(cause),
            ),
            ChannelEvent::EndpointChecked(_) => SendState::Flushing,
        },
        SendState::Delivered => SendState::Delivered,
        SendState::Failed(e) => SendState::Failed(e),
    }
}

impl SendState {
    /// Whether the attempt is over.
    pub fn is_finished(&self) -> (b: bool)
        ensures
            b == self@.is_terminal(),
    {
        matches!(self, SendState::Delivered | SendState::Failed(_))
    }

    /// The step the driver must perform next, or `None` when the attempt
    /// is over.
    pub fn action(&self) -> (a: Option<ChannelAction>)
        ensures
            a == send_action_model(self@),
    {
        match self {
            SendState::CheckingEndpoint { command: _ } => Some(ChannelAction::CheckEndpoint),
            SendState::Connecting { command: _ } => Some(
                ChannelAction::Connect { timeout_ms: SEND_STEP_TIMEOUT_MS },
            ),
            SendState::Writing { command } => Some(
                ChannelAction::Write { command: *command, timeout_ms: SEND_STEP_TIMEOUT_MS },
            ),
            SendState::Flushing => Some(ChannelAction::Flush { timeout_ms: SEND_STEP_TIMEOUT_MS }),
            SendState::Delivered => None,
            SendState::Failed(_) => None,
        }
    }
}

/// Runs a whole attempt against a scripted environment: starts with the
/// token, then folds the transition table over `events` until the attempt
/// is over or the script runs out.
pub fn run_send(command: &str, events: Vec<ChannelEvent>) -> (outcome: SendState)
    ensures
        outcome@ == run_send_model(start_send_model(command@), events_model(events@)),
{
    let ghost all_events = events_model(events@);
    let mut state = start_send(command);
    let mut events = events;
    while !state.is_finished() && events.len() > 0
        invariant
            run_send_model(start_send_model(command@), all_events) == run_send_model(
                state@,
                events_model(events@),
            ),
        decreases events@.len(),
    {
        let ghost pre = events@;
        let ev = events.remove(0);
        proof {
            let evs = events_model(pre);
            assert(evs[0] == ev@);
            assert(events_model(events@) =~= evs.drop_first());
        }
        state = send_step(state, ev);
    }
    state
}

/// The outcome of an attempt: `Some` exactly when it is over, `Ok` for a
/// delivered token, otherwise the error the attempt failed with.
pub fn send_result(state: SendState) -> (r: Option<Result<(), SocketError>>)
    ensures
        r is Some <==> state@.is_terminal(),
        state@ is Delivered ==> r == Some(Result::<(), SocketError>::Ok(())),
        state@ matches SendStateModel::Failed(e) ==> (r matches Some(res) && res matches Err(err)
            && err@ == e),
{
    match state {
        SendState::Delivered => Some(Ok(())),
        SendState::Failed(e) => Some(Err(e)),
        _ => None,
    }
}

/// An invalid token is refused before any I/O: the attempt starts already
/// failed with `InvalidCommand` naming the token, and demands no action
/// from the driver.
pub proof fn lemma_invalid_token_no_io(token: Seq<char>)
    requires
        !is_valid_token(token),
    ensures
        start_send_model(token) == SendStateModel::Failed(
            ErrorModel::InvalidCommand(invalid_token_text(token)),
        ),
        send_action_model(start_send_model(token)) is None,
{
}

/// A send against a missing endpoint fails fast: the first observation
/// already ends the attempt with `BackendNotRunning`, whatever would have
/// followed, and no connection is ever attempted.
pub proof fn lemma_missing_endpoint_fails_fast(token: Seq<char>, rest: Seq<ChannelEventModel>)
    requires
        is_valid_token(token),
    ensures
        run_send_model(
            start_send_model(token),
            seq![ChannelEventModel::EndpointChecked(false)] + rest,
        ) == SendStateModel::Failed(ErrorModel::BackendNotRunning),
        send_action_model(SendStateModel::Failed(ErrorModel::BackendNotRunning)) is None,
{
    let evs = seq![ChannelEventModel::EndpointChecked(false)] + rest;
    let start = start_send_model(token);
    assert(evs[0] == ChannelEventModel::EndpointChecked(false));
    assert(evs.drop_first() =~= rest);
    assert(send_step_model(start, evs[0]) == SendStateModel::Failed(ErrorModel::BackendNotRunning));
    assert(run_send_model(SendStateModel::Failed(ErrorModel::BackendNotRunning), rest)
        == SendStateModel::Failed(ErrorModel::BackendNotRunning));
}

/// Success is owed: with a valid token, a present endpoint, and every
/// bounded step completing, the attempt delivers the token.
pub proof fn lemma_responsive_backend_delivers(token: Seq<char>)
    requires
        is_valid_token(token),
    ensures
        run_send_model(
            start_send_model(token),
            seq![
                ChannelEventModel::EndpointChecked(true),
                ChannelEventModel::Io(IoOutcomeModel::Completed),
                ChannelEventModel::Io(IoOutcomeModel::Completed),
                ChannelEventModel::Io(IoOutcomeModel::Completed),
            ],
        ) == SendStateModel::Delivered,
{
    let evs = seq![
        ChannelEventModel::EndpointChecked(true),
        ChannelEventModel::Io(IoOutcomeModel::Completed),
        ChannelEventModel::Io(IoOutcomeModel::Completed),
        ChannelEventModel::Io(IoOutcomeModel::Completed),
    ];
    let c = parse_spec(token)->Some_0;
    assert(run_send_model(SendStateModel::Delivered, evs.drop_first().drop_first().drop_first()
        .drop_first()) == SendStateModel::Delivered);
    assert(run_send_model(SendStateModel::Flushing, evs.drop_first().drop_first().drop_first())
        == SendStateModel::Delivered);
    assert(run_send_model(SendStateModel::Writing { command: c }, evs.drop_first().drop_first())
        == SendStateModel::Delivered);
    assert(run_send_model(SendStateModel::Connecting { command: c }, evs.drop_first())
        == SendStateModel::Delivered);
}

/// A finished attempt is settled: once delivered or failed, no later
/// observation changes the outcome.
pub proof fn lemma_terminal_absorbs(s: SendStateModel, evs: Seq<ChannelEventModel>)
    requires
        s.is_terminal(),
    ensures
        run_send_model(s, evs) == s,
{
}

/// Delivery is earned: no run ever ends `Delivered` unless its token was
/// one of the accepted commands.
pub proof fn lemma_delivery_needs_valid_token(token: Seq<char>, evs: Seq<ChannelEventModel>)
    ensures
        run_send_model(start_send_model(token), evs) is Delivered ==> is_valid_token(token),
{
    if !is_valid_token(token) {
        lemma_terminal_absorbs(start_send_model(token), evs);
    }
}

/// The protocol never reads from the backend, so no attempt ever fails
/// with `ReadFailed`, whatever the driver observes.
pub proof fn lemma_no_read_failure(token: Seq<char>, evs: Seq<ChannelEventModel>)
    ensures
        !(run_send_model(start_send_model(token), evs) matches SendStateModel::Failed(
            ErrorModel::ReadFailed(_),
        )),
{
    lemma_no_read_failure_from(start_send_model(token), evs);
}

/// Helper for [`lemma_no_read_failure`]: the transition table never
/// constructs `ReadFailed`, so no run from a state free of it reaches it.
proof fn lemma_no_read_failure_from(s: SendStateModel, evs: Seq<ChannelEventModel>)
    requires
        !(s matches SendStateModel::Failed(ErrorModel::ReadFailed(_))),
    ensures
        !(run_send_model(s, evs) matches SendStateModel::Failed(ErrorModel::ReadFailed(_))),
    decreases evs.len(),
{
    if evs.len() == 0 || s.is_terminal() {
    } else {
        lemma_no_read_failure_from(send_step_model(s, evs[0]), evs.drop_first());
    }
}

} // verus!
