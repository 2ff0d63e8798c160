//! The reader of one session: activity tracking and idle timeout.
//!
//! Times are whole seconds on a clock that does not run backwards.

use vstd::prelude::*;
use crate::constant::SESSION_IDLE_THRESHOLD_SECONDS;

verus! {

/// Something that happens to a session's reader.
#[derive(Debug, Clone, Copy, PartialEq, Eq, Structural)]
pub enum SessionEvent {
    /// The shutdown signal arrived.
    Shutdown,
    /// The idle-check timer fired.
    IdleCheck,
    /// A frame was decoded.
    FrameReceived,
    /// The peer closed the connection.
    PeerClosed,
    /// Reading or decoding failed.
    ReadFailed,
}

/// Why a session ended.
#[derive(Debug, Clone, Copy, PartialEq, Eq, Structural)]
pub enum SessionEnd {
    /// It was shut down.
    Shutdown,
    /// No frame arrived for longer than the idle threshold.
    IdleTimeout,
    /// The peer closed the connection.
    PeerClosed,
    /// Reading or decoding failed.
    ReadFailed,
}

/// What the reader does next.
#[derive(Debug, Clone, Copy, PartialEq, Eq, Structural)]
pub enum SessionStep {
    /// Keep reading.
    Continue,
    /// Stop reading, close the writer and drop the session.
    End(SessionEnd),
}

/// Activity tracker of one session's reader.
#[derive(Debug, Clone, Copy, PartialEq, Eq, Structural)]
pub struct ServerListener {
    /// When the last frame was decoded, or the session accepted.
    pub last_activity: u64,
    /// Seconds without a frame after which the session counts as idle.
    pub idle_threshold: u64,
}

/// Seconds from `last_activity` to `now`; none where `now` is earlier.
pub open spec fn spec_elapsed(last_activity: u64, now: u64) -> nat {
    if now >= last_activity {
        (now - last_activity) as nat
    } else {
        0
    }
}

/// A session is idle once more than `idle_threshold` seconds have passed
/// since its last activity.
pub open spec fn spec_is_idle(last_activity: u64, idle_threshold: u64, now: u64) -> bool {
    spec_elapsed(last_activity, now) > idle_threshold
}

/// The listener after `event` at `now`, and what the reader does next.
pub open spec fn spec_session_step(listener: ServerListener, event: SessionEvent, now: u64) -> (
    ServerListener,
    SessionStep,
) {
    match event {
        SessionEvent::Shutdown => (listener, SessionStep::End(SessionEnd::Shutdown)),
        SessionEvent::IdleCheck => if spec_is_idle(
            listener.last_activity,
            listener.idle_threshold,
            now,
        ) {
            (listener, SessionStep::End(SessionEnd::IdleTimeout))
        } else {
            (listener, SessionStep::Continue)
        },
        SessionEvent::FrameReceived => (
            ServerListener { last_activity: now, idle_threshold: listener.idle_threshold },
            SessionStep::Continue,
        ),
        SessionEvent::PeerClosed => (listener, SessionStep::End(SessionEnd::PeerClosed)),
        SessionEvent::ReadFailed => (listener, SessionStep::End(SessionEnd::ReadFailed)),
    }
}

impl ServerListener {
    /// A listener of a session accepted at `now`, with the default idle
    /// threshold.
    pub open spec fn spec_new(now: u64) -> Self {
        ServerListener { last_activity: now, idle_threshold: SESSION_IDLE_THRESHOLD_SECONDS }
    }

    /// A listener of a session accepted at `now`, with the default idle
    /// threshold.
    pub fn new(now: u64) -> (r: Self)
        ensures
            r == Self::spec_new(now),
    {
        ServerListener { last_activity: now, idle_threshold: SESSION_IDLE_THRESHOLD_SECONDS }
    }

    /// A listener of a session accepted at `now`, idle after more than
    /// `idle_threshold` seconds without a frame.
    pub fn with_idle_threshold(now: u64, idle_threshold: u64) -> (r: Self)
        ensures
            r == (ServerListener { last_activity: now, idle_threshold }),
    {
        ServerListener { last_activity: now, idle_threshold }
    }

    /// Whether the session is idle at `now`.
    pub fn is_idle(&self, now: u64) -> (r: bool)
        ensures
            r == spec_is_idle(self.last_activity, self.idle_threshold, now),
    {
        now >= self.last_activity && now - self.last_activity > self.idle_threshold
    }

    /// Takes in `event` at `now` and says what the reader does next. A
    /// frame resets the idle timer; an idle check ends an idle session.
    pub fn handle_event(&mut self, event: SessionEvent, now: u64) -> (step: SessionStep)
        ensures
            (*final(self), step) == spec_session_step(*old(self), event, now),
    {
        match event {
            SessionEvent::Shutdown => SessionStep::End(SessionEnd::Shutdown),
            SessionEvent::IdleCheck => {
                if self.is_idle(now) {
                    SessionStep::End(SessionEnd::IdleTimeout)
                } else {
                    SessionStep::Continue
                }
            },
            SessionEvent::FrameReceived => {
                self.last_activity = now;
                SessionStep::Continue
            },
            SessionEvent::PeerClosed => SessionStep::End(SessionEnd::PeerClosed),
            SessionEvent::ReadFailed => SessionStep::End(SessionEnd::ReadFailed),
        }
    }
}

/// A session that has received no frame for longer than its threshold ends
/// at the next idle check.
pub proof fn lemma_idle_session_ends(listener: ServerListener, now: u64)
    requires
        now - listener.last_activity > listener.idle_threshold,
    ensures
        spec_session_step(listener, SessionEvent::IdleCheck, now).1 == SessionStep::End(
            SessionEnd::IdleTimeout,
        ),
{
}

/// A frame resets the idle timer: after a frame at `frame_at`, no idle
/// check up to `frame_at + idle_threshold` ends the session, however long
/// ago the session was accepted.
pub proof fn lemma_frame_resets_idle_timer(listener: ServerListener, frame_at: u64, now: u64)
    requires
        now <= frame_at + listener.idle_threshold,
    ensures
        ({
            let after_frame = spec_session_step(listener, SessionEvent::FrameReceived, frame_at).0;
            spec_session_step(after_frame, SessionEvent::IdleCheck, now) == (
                after_frame,
                SessionStep::Continue,
            )
        }),
{
}

} // verus!
