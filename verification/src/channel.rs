//! The channel's fixed parameters, the actions an I/O driver performs, and
//! the events it reports back.
//!
//! The machines in [`crate::send`] and [`crate::probe`] never touch a
//! socket.  They hand the driver one [`ChannelAction`] at a time; the
//! driver performs it against the endpoint and answers with the
//! [`ChannelEvent`] it observed.  Every step is independently
//! time-bounded, so a stalled connect is distinguishable from a stalled
//! write.

use vstd::prelude::*;
use crate::command::Command;

verus! {

/// The well-known filesystem path of the backend's endpoint.
pub const SOCKET_PATH: &'static str = "/tmp/voice-dictation.sock";

/// Per-step time budget of a send, in milliseconds: one budget each for
/// connect, write and flush.
pub const SEND_STEP_TIMEOUT_MS: u64 = 2000;

/// Time budget of the probe's connection attempt, in milliseconds; short,
/// since a probe only answers "is something listening".
pub const PROBE_TIMEOUT_MS: u64 = 500;

/// Outcome of one bounded I/O step, as the driver observed it.
#[derive(Debug, PartialEq, Eq)]
pub enum IoOutcome {
    /// The step finished within its time budget.
    Completed,
    /// The time budget elapsed first; the step was abandoned.
    TimedOut,
    /// The OS reported an error; the payload is its description.
    Failed(String),
}

/// Mathematical model of an [`IoOutcome`].
pub enum IoOutcomeModel {
    Completed,
    TimedOut,
    Failed(Seq<char>),
}

impl View for IoOutcome {
    type V = IoOutcomeModel;

    open spec fn view(&self) -> IoOutcomeModel {
        match self {
            IoOutcome::Completed => IoOutcomeModel::Completed,
            IoOutcome::TimedOut => IoOutcomeModel::TimedOut,
            IoOutcome::Failed(c) => IoOutcomeModel::Failed(c@),
        }
    }
}

/// One observation the driver hands back to a machine.
#[derive(Debug, PartialEq, Eq)]
pub enum ChannelEvent {
    /// Whether the endpoint path exists on the filesystem.
    EndpointChecked(bool),
    /// How the pending bounded I/O step ended.
    Io(IoOutcome),
}

/// Mathematical model of a [`ChannelEvent`].
pub enum ChannelEventModel {
    EndpointChecked(bool),
    Io(IoOutcomeModel),
}

impl View for ChannelEvent {
    type V = ChannelEventModel;

    open spec fn view(&self) -> ChannelEventModel {
        match self {
            ChannelEvent::EndpointChecked(b) => ChannelEventModel::EndpointChecked(*b),
            ChannelEvent::Io(o) => ChannelEventModel::Io(o@),
        }
    }
}

/// The models of a sequence of events, in order.
pub open spec fn events_model(evs: Seq<ChannelEvent>) -> Seq<ChannelEventModel> {
    evs.map_values(|e: ChannelEvent| e@)
}

/// What the driver must do next against the endpoint.
///
/// Carries no strings: the endpoint path is the driver's, fixed process-wide
/// ([`SOCKET_PATH`] by default), and the bytes to write are the acting
/// command's token.
#[derive(Debug, Clone, Copy, PartialEq, Eq, Structural)]
pub enum ChannelAction {
    /// Test whether the endpoint path exists; no connection is made.
    CheckEndpoint,
    /// Open a connection to the endpoint, waiting at most `timeout_ms`.
    Connect { timeout_ms: u64 },
    /// Write the token bytes of `command`, waiting at most `timeout_ms`.
    Write { command: Command, timeout_ms: u64 },
    /// Flush the connection to force delivery, waiting at most `timeout_ms`.
    Flush { timeout_ms: u64 },
}

} // verus!
