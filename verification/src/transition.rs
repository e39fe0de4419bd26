//! The wall-clock that makes gapless transitions inaudible *and* invisible.
//!
//! The ring buffer holds about five seconds of audio, so the next track is
//! decoded five seconds before it is heard. The UI announcement of the new
//! track — the song-change event, the offset reset, the reset pulse — must
//! therefore wait the same five seconds of wall time, counted from the first
//! decoded packet of the new session.

use vstd::prelude::*;

verus! {

/// How long a transition is withheld: the play time of a full ring buffer,
/// in milliseconds.
pub const TRANSITION_MILLIS: u64 = 5000;

/// The transition state carried by the decode loop.
pub struct TransitionClock {
    /// A transition is in progress: the session now decoding is ahead of
    /// what is audible.
    pub active: bool,
    /// The first packet of the new session has been decoded.
    pub started: bool,
    /// When that first packet was decoded, in milliseconds of wall time.
    pub start_ms: u64,
}

/// What the decode loop does for the transition after decoding one packet.
pub enum TransitionStep {
    /// Nothing: no transition is running, or the withholding time has not
    /// elapsed.
    Idle,
    /// This packet is the first of the new session: its decode time has been
    /// recorded.
    Started,
    /// The withholding time has elapsed: announce the new track now (emit
    /// the song change, reset the sample offset, pulse the reset control)
    /// and leave the transition.
    Announce,
}

/// The clock's transition relation: observing one decoded packet at wall
/// time `now_ms`.
pub open spec fn spec_on_packet(c: TransitionClock, now_ms: u64) -> (TransitionClock, TransitionStep) {
    if !c.active {
        (c, TransitionStep::Idle)
    } else if !c.started {
        (
            TransitionClock { active: true, started: true, start_ms: now_ms },
            TransitionStep::Started,
        )
    } else if now_ms - c.start_ms >= TRANSITION_MILLIS {
        (
            TransitionClock { active: false, started: false, start_ms: c.start_ms },
            TransitionStep::Announce,
        )
    } else {
        (c, TransitionStep::Idle)
    }
}

impl TransitionClock {
    /// The clock of a loop with nothing in transition.
    pub fn new() -> (c: TransitionClock)
        ensures
            !c.active,
            !c.started,
    {
        TransitionClock { active: false, started: false, start_ms: 0 }
    }

    /// Enter a transition: the next decoded packet starts the withholding
    /// clock. Called when a queued track follows at end of stream and when
    /// the loop region wraps.
    pub fn begin(&mut self)
        ensures
            final(self).active,
            final(self).started == old(self).started,
            final(self).start_ms == old(self).start_ms,
    {
        self.active = true;
    }

    /// Observe one decoded packet at wall time `now_ms` (the wall clock
    /// never runs backwards past the recorded start).
    pub fn on_packet_decoded(&mut self, now_ms: u64) -> (step: TransitionStep)
        requires
            old(self).active && old(self).started ==> old(self).start_ms <= now_ms,
        ensures
            (*final(self), step) == spec_on_packet(*old(self), now_ms),
    {
        if !self.active {
            TransitionStep::Idle
        } else if !self.started {
            self.started = true;
            self.start_ms = now_ms;
            TransitionStep::Started
        } else if now_ms - self.start_ms >= TRANSITION_MILLIS {
            self.active = false;
            self.started = false;
            TransitionStep::Announce
        } else {
            TransitionStep::Idle
        }
    }
}

/// The announcement is never early: a clock that was started at `c.start_ms`
/// — the decode time of the new session's first packet — announces the
/// track only at a wall time at least `TRANSITION_MILLIS` later.
pub proof fn lemma_announce_never_early(c: TransitionClock, now_ms: u64)
    requires
        c.started ==> c.start_ms <= now_ms,
        spec_on_packet(c, now_ms).1 is Announce,
    ensures
        c.active,
        c.started,
        now_ms >= c.start_ms + TRANSITION_MILLIS,
{
}

} // verus!
