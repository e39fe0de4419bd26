//! The sink side of the engine: the state the device callback reads at the
//! start of each tick. Commands reach it over small queues — volume, offset
//! reset, playback state, the reset pulse, a device change — and the
//! callback drains every queue once per tick, so a command enqueued before a
//! tick is in effect for that tick's samples.

use vstd::prelude::*;

verus! {

/// The state owned by the device callback.
pub struct SinkControl {
    /// Pending gain changes, oldest first, in thousandths.
    pub volume_queue: Vec<u32>,
    /// The gain applied to this tick's samples, in thousandths.
    pub current_volume: u32,
    /// Pending overrides of the sample-offset counter.
    pub offset_queue: Vec<u64>,
    /// Samples handed to the device since the session position was last
    /// reset; published periodically to the UI.
    pub sample_offset: u64,
    /// Pending playback-state changes (true plays, false pauses).
    pub state_queue: Vec<bool>,
    /// Whether the callback feeds the device or writes silence.
    pub playing: bool,
    /// Pending one-shot reset pulses ("the upstream changed: treat the
    /// buffer as a boundary").
    pub reset_queue: Vec<bool>,
    /// A reset pulse was observed this tick.
    pub reset_edge: bool,
}

/// The gain in effect after a tick drains the queues: the newest queued
/// change, or the unchanged gain when none is queued.
pub open spec fn drained_volume(s: SinkControl) -> u32 {
    if s.volume_queue@.len() > 0 {
        s.volume_queue@.last()
    } else {
        s.current_volume
    }
}

/// The offset counter after a tick drains the queues.
pub open spec fn drained_offset(s: SinkControl) -> u64 {
    if s.offset_queue@.len() > 0 {
        s.offset_queue@.last()
    } else {
        s.sample_offset
    }
}

/// The playback state after a tick drains the queues.
pub open spec fn drained_playing(s: SinkControl) -> bool {
    if s.state_queue@.len() > 0 {
        s.state_queue@.last()
    } else {
        s.playing
    }
}

impl SinkControl {
    /// A fresh sink: playing, at offset zero, with the given gain.
    pub fn new(volume: u32) -> (s: SinkControl)
        ensures
            s.volume_queue@.len() == 0,
            s.offset_queue@.len() == 0,
            s.state_queue@.len() == 0,
            s.reset_queue@.len() == 0,
            s.current_volume == volume,
            s.sample_offset == 0,
            s.playing,
            !s.reset_edge,
    {
        SinkControl {
            volume_queue: Vec::new(),
            current_volume: volume,
            offset_queue: Vec::new(),
            sample_offset: 0,
            state_queue: Vec::new(),
            playing: true,
            reset_queue: Vec::new(),
            reset_edge: false,
        }
    }

    /// Enqueue a live gain change.
    pub fn enqueue_volume(&mut self, volume: u32)
        ensures
            *final(self) == (SinkControl { volume_queue: final(self).volume_queue, ..*old(self) }),
            final(self).volume_queue@ == old(self).volume_queue@.push(volume),
    {
        self.volume_queue.push(volume);
    }

    /// Enqueue an override of the offset counter (seek or track change).
    pub fn enqueue_offset_reset(&mut self, offset: u64)
        ensures
            *final(self) == (SinkControl { offset_queue: final(self).offset_queue, ..*old(self) }),
            final(self).offset_queue@ == old(self).offset_queue@.push(offset),
    {
        self.offset_queue.push(offset);
    }

    /// Enqueue a playback-state change.
    pub fn enqueue_state(&mut self, playing: bool)
        ensures
            *final(self) == (SinkControl { state_queue: final(self).state_queue, ..*old(self) }),
            final(self).state_queue@ == old(self).state_queue@.push(playing),
    {
        self.state_queue.push(playing);
    }

    /// Enqueue a one-shot reset pulse.
    pub fn enqueue_reset(&mut self)
        ensures
            *final(self) == (SinkControl { reset_queue: final(self).reset_queue, ..*old(self) }),
            final(self).reset_queue@ == old(self).reset_queue@.push(true),
    {
        self.reset_queue.push(true);
    }

    /// Drain every queue at the start of a callback tick. Afterwards the
    /// newest queued gain is the gain in effect — a volume change thus takes
    /// effect within one device-callback tick of being enqueued — and
    /// likewise for the offset override and the playback state; a queued
    /// pulse shows as `reset_edge`.
    pub fn begin_tick(&mut self)
        ensures
            final(self).current_volume == drained_volume(*old(self)),
            final(self).sample_offset == drained_offset(*old(self)),
            final(self).playing == drained_playing(*old(self)),
            final(self).reset_edge == (old(self).reset_queue@.len() > 0),
            final(self).volume_queue@.len() == 0,
            final(self).offset_queue@.len() == 0,
            final(self).state_queue@.len() == 0,
            final(self).reset_queue@.len() == 0,
    {
        if self.volume_queue.len() > 0 {
            self.current_volume = self.volume_queue[self.volume_queue.len() - 1];
        }
        self.volume_queue.clear();
        if self.offset_queue.len() > 0 {
            self.sample_offset = self.offset_queue[self.offset_queue.len() - 1];
        }
        self.offset_queue.clear();
        if self.state_queue.len() > 0 {
            self.playing = self.state_queue[self.state_queue.len() - 1];
        }
        self.state_queue.clear();
        self.reset_edge = self.reset_queue.len() > 0;
        self.reset_queue.clear();
    }

    /// Count the samples handed to the device this tick. The counter only
    /// ever grows between offset overrides: the offsets the UI observes
    /// within a session are monotonically increasing.
    pub fn advance(&mut self, samples: u64)
        requires
            old(self).sample_offset + samples <= u64::MAX,
        ensures
            final(self).sample_offset == old(self).sample_offset + samples,
            final(self).sample_offset >= old(self).sample_offset,
            *final(self) == (SinkControl { sample_offset: final(self).sample_offset, ..*old(self) }),
    {
        self.sample_offset = self.sample_offset + samples;
    }
}

/// A gain enqueued last is the gain of the next tick: whatever was queued
/// before it, one `begin_tick` installs it.
pub proof fn lemma_volume_within_one_tick(s: SinkControl, volume: u32)
    requires
        s.volume_queue@.len() > 0,
        s.volume_queue@.last() == volume,
    ensures
        drained_volume(s) == volume,
{
}

} // verus!
