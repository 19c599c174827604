//! The local recording belief and its update discipline.
//!
//! The channel is fire-and-forget, so the UI can only estimate whether
//! recording is active.  The belief lives here, is read by status queries,
//! and changes only when a send has succeeded; a failed send leaves it
//! exactly as it was, so the UI never reports a flip that was not sent.
//! The belief can still drift from backend truth — the backend may crash
//! or ignore a command after the bytes were accepted — and no
//! reconciliation exists beyond a manual probe.
//!
//! The caller must hold exactly one exclusive lock around a whole toggle —
//! from reading [`RecordingTracker::pending_command`] to
//! [`RecordingTracker::complete_toggle`] — so that two concurrent toggles
//! cannot observe the same stale belief and send duplicate commands.

use vstd::prelude::*;
use crate::command::Command;
use crate::error::SocketError;

verus! {

/// The command a toggle must send: the opposite of the current belief.
pub open spec fn toggle_command(recording: bool) -> Command {
    if recording {
        Command::Stop
    } else {
        Command::Start
    }
}

/// Holds the UI's belief about whether recording is active.
#[derive(Debug, Clone, Copy, PartialEq, Eq, Structural)]
pub struct RecordingTracker {
    recording: bool,
}

impl RecordingTracker {
    /// The current belief: a local estimate, not backend truth.
    pub closed spec fn belief(self) -> bool {
        self.recording
    }

    /// A fresh tracker: recording is believed off.
    pub fn new() -> (t: Self)
        ensures
            !t.belief(),
    {
        RecordingTracker { recording: false }
    }

    /// The current belief, without any channel I/O.  Not authoritative: a
    /// caller wanting ground truth must probe, and even a probe only
    /// proves liveness, never recording state.
    pub fn status(&self) -> (b: bool)
        ensures
            b == self.belief(),
    {
        self.recording
    }

    /// The command the pending toggle must send, read under the caller's
    /// lock: `stop` when recording is believed on, `start` when off.
    pub fn pending_command(&self) -> (c: Command)
        ensures
            c == toggle_command(self.belief()),
    {
        if self.recording {
            Command::Stop
        } else {
            Command::Start
        }
    }

    /// Finishes a toggle with the outcome of its send, still under the
    /// caller's lock.  A delivered send flips the belief and returns the
    /// new value; a failed send leaves the belief exactly as it was and
    /// propagates the error unchanged.
    pub fn complete_toggle(&mut self, outcome: Result<(), SocketError>) -> (r: Result<
        bool,
        SocketError,
    >)
        ensures
            outcome is Ok ==> final(self).belief() == !old(self).belief() && r == Result::<
                bool,
                SocketError,
            >::Ok(!old(self).belief()),
            outcome matches Err(e) ==> final(self).belief() == old(self).belief() && r == Result::<
                bool,
                SocketError,
            >::Err(e),
    {
        match outcome {
            Ok(()) => {
                self.recording = !self.recording;
                Ok(self.recording)
            },
            Err(e) => Err(e),
        }
    }
}

impl Default for RecordingTracker {
    /// Same as [`RecordingTracker::new`]: recording is believed off.
    fn default() -> (t: Self)
        ensures
            !t.belief(),
    {
        RecordingTracker { recording: false }
    }
}

/// The commands that `n` serialized, successful toggles send from belief
/// `b`: the opposite of the belief before each one.
pub open spec fn toggle_trace(b: bool, n: nat) -> Seq<Command>
    decreases n,
{
    if n == 0 {
        Seq::empty()
    } else {
        seq![toggle_command(b)] + toggle_trace(!b, (n - 1) as nat)
    }
}

/// A toggle only ever sends `start` or `stop`: the `toggle` token, though
/// validation accepts it, is never what the tracker puts on the wire.
pub proof fn lemma_toggle_sends_start_or_stop(b: bool, n: nat)
    ensures
        toggle_trace(b, n).len() == n,
        forall|i: int|
            0 <= i < n ==> (#[trigger] toggle_trace(b, n)[i] == Command::Start || toggle_trace(
                b,
                n,
            )[i] == Command::Stop),
    decreases n,
{
    if n == 0 {
    } else {
        lemma_toggle_sends_start_or_stop(!b, (n - 1) as nat);
        let t = toggle_trace(b, n);
        let rest = toggle_trace(!b, (n - 1) as nat);
        assert forall|i: int| 0 <= i < n implies (#[trigger] t[i] == Command::Start || t[i]
            == Command::Stop) by {
            if i > 0 {
                assert(t[i] == rest[i - 1]);
            }
        }
    }
}

/// Serialized toggles alternate: among `n` successful toggles run one
/// after another under the lock, no two consecutive sends carry the same
/// command, from any starting belief.
pub proof fn lemma_toggle_trace_alternates(b: bool, n: nat)
    ensures
        toggle_trace(b, n).len() == n,
        forall|i: int|
            0 <= i && i + 1 < n ==> #[trigger] toggle_trace(b, n)[i] != toggle_trace(b, n)[i + 1],
    decreases n,
{
    if n == 0 {
    } else {
        lemma_toggle_trace_alternates(!b, (n - 1) as nat);
        let t = toggle_trace(b, n);
        let rest = toggle_trace(!b, (n - 1) as nat);
        assert forall|i: int| 0 <= i && i + 1 < n implies #[trigger] t[i] != t[i + 1] by {
            if i == 0 {
                assert(t[0] == toggle_command(b));
                assert(t[1] == rest[0]);
                if n >= 2 {
                    assert(rest[0] == toggle_command(!b));
                }
            } else {
                assert(t[i] == rest[i - 1]);
                assert(t[i + 1] == rest[i]);
            }
        }
    }
}

} // verus!
