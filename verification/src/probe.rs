//! The liveness probe: is something listening on the endpoint?
//!
//! A probe opens and immediately discards a connection without sending a
//! byte, so it is side-effect-free with respect to backend state.  The
//! path test alone is not proof of liveness — a stale endpoint file can
//! survive a backend crash — so a present path is followed by a real,
//! shortly-bounded connection attempt.  The probe answers "is something
//! listening", never "is it recording": the protocol has no state-query
//! command.

use vstd::prelude::*;
use crate::channel::{
    ChannelAction, ChannelEvent, ChannelEventModel, IoOutcome, IoOutcomeModel, events_model,
    PROBE_TIMEOUT_MS,
};

verus! {

/// State of one probe.  The non-terminal states name the step the driver
/// must perform next.
#[derive(Debug, Clone, Copy, PartialEq, Eq, Structural)]
pub enum ProbeState {
    /// Next: test whether the endpoint path exists.
    CheckingEndpoint,
    /// Next: attempt a connection, bounded by [`PROBE_TIMEOUT_MS`].
    Connecting,
    /// The probe's answer: whether the backend is reachable.
    Answered(bool),
}

impl ProbeState {
    /// A terminal probe has its answer.
    pub open spec fn is_terminal(self) -> bool {
        self is Answered
    }
}

/// The transition table of a probe.
///
/// A missing path answers `false` at once, with no connection attempt; a
/// present path answers whatever the bounded connection attempt showed:
/// `true` only if it succeeded within its budget, `false` on refusal,
/// error or timeout.  A terminal state absorbs every event, and an
/// observation that does not answer the pending step changes nothing.
pub open spec fn probe_step_model(s: ProbeState, e: ChannelEventModel) -> ProbeState {
    match s {
        ProbeState::CheckingEndpoint => match e {
            ChannelEventModel::EndpointChecked(true) => ProbeState::Connecting,
            ChannelEventModel::EndpointChecked(false) => ProbeState::Answered(false),
            ChannelEventModel::Io(_) => s,
        },
        ProbeState::Connecting => match e {
            ChannelEventModel::Io(IoOutcomeModel::Completed) => ProbeState::Answered(true),
            ChannelEventModel::Io(IoOutcomeModel::TimedOut) => ProbeState::Answered(false),
            ChannelEventModel::Io(IoOutcomeModel::Failed(_)) => ProbeState::Answered(false),
            ChannelEventModel::EndpointChecked(_) => s,
        },
        ProbeState::Answered(_) => s,
    }
}

/// What the driver must do in state `s`; `None` exactly when the probe
/// has its answer.
pub open spec fn probe_action_model(s: ProbeState) -> Option<ChannelAction> {
    match s {
        ProbeState::CheckingEndpoint => Some(ChannelAction::CheckEndpoint),
        ProbeState::Connecting => Some(ChannelAction::Connect { timeout_ms: PROBE_TIMEOUT_MS }),
        ProbeState::Answered(_) => None,
    }
}

/// A whole probe, as a fold of the transition table over the events the
/// driver reports, in order.
pub open spec fn run_probe_model(s: ProbeState, evs: Seq<ChannelEventModel>) -> ProbeState
    decreases evs.len(),
{
    if evs.len() == 0 || s.is_terminal() {
        s
    } else {
        run_probe_model(probe_step_model(s, evs[0]), evs.drop_first())
    }
}

/// Where every probe begins: at the endpoint path test.
pub fn start_probe() -> (s: ProbeState)
    ensures
        s == ProbeState::CheckingEndpoint,
{
    ProbeState::CheckingEndpoint
}

/// Advances a probe by one observed event, exactly as the transition
/// table says.
pub fn probe_step(state: ProbeState, event: &ChannelEvent) -> (next: ProbeState)
    ensures
        next == probe_step_model(state, event@),
{
    match state {
        ProbeState::CheckingEndpoint => match event {
            ChannelEvent::EndpointChecked(true) => ProbeState::Connecting,
            ChannelEvent::EndpointChecked(false) => ProbeState::Answered(false),
            ChannelEvent::Io(_) => ProbeState::CheckingEndpoint,
        },
        ProbeState::Connecting => match event {
            ChannelEvent::Io(o) => match o {
                IoOutcome::Completed => ProbeState::Answered(true),
                IoOutcome::TimedOut => ProbeState::Answered(false),
                IoOutcome::Failed(_) => ProbeState::Answered(false),
            },
            ChannelEvent::EndpointChecked(_) => ProbeState::Connecting,
        },
        ProbeState::Answered(b) => ProbeState::Answered(b),
    }
}

impl ProbeState {
    /// Whether the probe has its answer.
    pub fn is_finished(&self) -> (b: bool)
        ensures
            b == self.is_terminal(),
    {
        matches!(*self, ProbeState::Answered(_))
    }

    /// The step the driver must perform next, or `None` when the probe
    /// has its answer.
    pub fn action(&self) -> (a: Option<ChannelAction>)
        ensures
            a == probe_action_model(*self),
    {
        match *self {
            ProbeState::CheckingEndpoint => Some(ChannelAction::CheckEndpoint),
            ProbeState::Connecting => Some(
                ChannelAction::Connect { timeout_ms: PROBE_TIMEOUT_MS },
            ),
            ProbeState::Answered(_) => None,
        }
    }

    /// The probe's answer, once it has one.
    pub fn answer(&self) -> (r: Option<bool>)
        ensures
            r is Some <==> self.is_terminal(),
            *self matches ProbeState::Answered(b) ==> r == Some(b),
    {
        match *self {
            ProbeState::Answered(b) => Some(b),
            _ => None,
        }
    }
}

/// Runs a whole probe against a scripted environment: folds the
/// transition table over `events` until the probe has its answer or the
/// script runs out.
pub fn run_probe(events: &Vec<ChannelEvent>) -> (outcome: ProbeState)
    ensures
        outcome == run_probe_model(ProbeState::CheckingEndpoint, events_model(events@)),
{
    let mut state = ProbeState::CheckingEndpoint;
    let mut i: usize = 0;
    proof {
        assert(events_model(events@).skip(0) =~= events_model(events@));
    }
    while !state.is_finished() && i < events.len()
        invariant
            i <= events@.len(),
            run_probe_model(ProbeState::CheckingEndpoint, events_model(events@))
                == run_probe_model(state, events_model(events@).skip(i as int)),
        decreases events@.len() - i,
    {
        proof {
            let evs = events_model(events@);
            assert(evs.skip(i as int)[0] == evs[i as int]);
            assert(evs.skip(i as int).drop_first() =~= evs.skip(i as int + 1));
        }
        state = probe_step(state, &events[i]);
        i = i + 1;
    }
    state
}

/// A probe against a missing endpoint fails fast: the path test alone
/// answers `false`, whatever would have followed, and no connection is
/// ever attempted.
pub proof fn lemma_probe_missing_endpoint_fails_fast(rest: Seq<ChannelEventModel>)
    ensures
        run_probe_model(
            ProbeState::CheckingEndpoint,
            seq![ChannelEventModel::EndpointChecked(false)] + rest,
        ) == ProbeState::Answered(false),
        probe_action_model(ProbeState::Answered(false)) is None,
{
    let evs = seq![ChannelEventModel::EndpointChecked(false)] + rest;
    assert(evs[0] == ChannelEventModel::EndpointChecked(false));
    assert(evs.drop_first() =~= rest);
    assert(run_probe_model(ProbeState::Answered(false), rest) == ProbeState::Answered(false));
}

/// A live listener is reported `true`; a stale path whose listener is
/// gone — the connection refused, failed or timed out — is reported
/// `false`.
pub proof fn lemma_probe_classifies_liveness(cause: Seq<char>)
    ensures
        probe_step_model(ProbeState::Connecting, ChannelEventModel::Io(IoOutcomeModel::Completed))
            == ProbeState::Answered(true),
        probe_step_model(ProbeState::Connecting, ChannelEventModel::Io(IoOutcomeModel::TimedOut))
            == ProbeState::Answered(false),
        probe_step_model(
            ProbeState::Connecting,
            ChannelEventModel::Io(IoOutcomeModel::Failed(cause)),
        ) == ProbeState::Answered(false),
{
}

/// A probe never transmits: the only steps it ever demands are the path
/// test and the connection attempt, so it cannot change backend state.
pub proof fn lemma_probe_sends_nothing(s: ProbeState)
    ensures
        probe_action_model(s) matches Some(a) ==> (a is CheckEndpoint || a is Connect),
{
}

} // verus!
