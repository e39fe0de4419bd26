//! The waveform-peaks accumulator: the one-shot offline pass that turns a
//! whole file into an array of loudness values, one per window of 4000
//! samples. The host decodes packets and feeds the samples in; whenever a
//! window fills, it is handed back so the host can reduce it to one value
//! (a root-mean-square, which is floating-point work) and record it. The
//! peaks array never grows past the size expected from the track length, and
//! a progressive snapshot pads it with trailing zeros to exactly that size.

use vstd::prelude::*;
use vstd::arithmetic::div_mod::lemma_fundamental_div_mod_converse;

verus! {

/// Samples reduced to one peak value.
pub const WINDOW_SAMPLES: usize = 4000;

/// The running state of one peaks pass.
pub struct PeaksAccumulator {
    /// The window being filled, fewer than `WINDOW_SAMPLES` samples.
    pub window: Vec<u32>,
    /// One recorded value per completed window, oldest first.
    pub peaks: Vec<u32>,
    /// The peaks the track should yield: total samples over the window
    /// size, rounded down.
    pub expected: usize,
    /// Windows completed so far.
    pub windows_done: u64,
    /// A completed window was handed out and its value not yet recorded.
    pub pending: bool,
    /// Samples fed in so far.
    pub samples_seen: u64,
    /// Packets decoded since the last progressive emission.
    pub packets_since_emit: u32,
}

/// `x`, but never above `cap`.
pub open spec fn capped(x: int, cap: int) -> int {
    if x <= cap {
        x
    } else {
        cap
    }
}

/// Completed windows whose value has been recorded (or dropped at the cap).
pub open spec fn recorded_windows(a: PeaksAccumulator) -> int {
    a.windows_done - (if a.pending {
        1int
    } else {
        0int
    })
}

/// The accumulator's invariant: the window is always short of full, the
/// sample count splits exactly into completed windows plus the open window,
/// and the peaks array holds one value per recorded window — capped at the
/// expected size, so it never exceeds it.
pub open spec fn wf(a: PeaksAccumulator) -> bool {
    &&& a.window@.len() < WINDOW_SAMPLES
    &&& a.samples_seen == a.windows_done * WINDOW_SAMPLES + a.window@.len()
    &&& (a.pending ==> a.windows_done >= 1)
    &&& a.peaks@.len() == capped(recorded_windows(a), a.expected as int)
    &&& a.packets_since_emit <= 100
}

impl PeaksAccumulator {
    /// Start a pass over a track of `n_frames` frames of `channels`
    /// channels each.
    pub fn new(n_frames: u64, channels: u32) -> (a: PeaksAccumulator)
        requires
            n_frames * channels <= u64::MAX,
            n_frames * channels / (WINDOW_SAMPLES as int) <= usize::MAX,
        ensures
            wf(a),
            a.expected == n_frames * channels / (WINDOW_SAMPLES as int),
            a.peaks@.len() == 0,
            a.window@.len() == 0,
            a.samples_seen == 0,
            !a.pending,
    {
        let total: u64 = n_frames * (channels as u64);
        let expected: usize = (total / (WINDOW_SAMPLES as u64)) as usize;
        PeaksAccumulator {
            window: Vec::new(),
            peaks: Vec::new(),
            expected,
            windows_done: 0,
            pending: false,
            samples_seen: 0,
            packets_since_emit: 0,
        }
    }

    /// Feed one sample. When it completes a window, the full window is
    /// handed back for reduction and the next window starts empty; the
    /// reduced value must be recorded before the next sample is fed.
    pub fn push_sample(&mut self, s: u32) -> (full: Option<Vec<u32>>)
        requires
            wf(*old(self)),
            !old(self).pending,
            old(self).samples_seen < u64::MAX,
        ensures
            wf(*final(self)),
            final(self).expected == old(self).expected,
            final(self).peaks@ == old(self).peaks@,
            final(self).samples_seen == old(self).samples_seen + 1,
            final(self).packets_since_emit == old(self).packets_since_emit,
            old(self).window@.len() + 1 == WINDOW_SAMPLES ==> {
                &&& full is Some
                &&& full->Some_0@ == old(self).window@.push(s)
                &&& final(self).window@.len() == 0
                &&& final(self).pending
                &&& final(self).windows_done == old(self).windows_done + 1
            },
            old(self).window@.len() + 1 < WINDOW_SAMPLES ==> {
                &&& full is None
                &&& final(self).window@ == old(self).window@.push(s)
                &&& !final(self).pending
                &&& final(self).windows_done == old(self).windows_done
            },
    {
        self.window.push(s);
        self.samples_seen = self.samples_seen + 1;
        if self.window.len() == WINDOW_SAMPLES {
            proof {
                let wd = old(self).windows_done as int;
                let w = WINDOW_SAMPLES as int;
                assert(wd * w <= old(self).samples_seen);
                assert(wd < u64::MAX) by (nonlinear_arith)
                    requires
                        wd * w <= u64::MAX,
                        w >= 2,
                        wd >= 0,
                ;
            }
            self.windows_done = self.windows_done + 1;
            self.pending = true;
            let mut handed: Vec<u32> = Vec::new();
            core::mem::swap(&mut handed, &mut self.window);
            Option::Some(handed)
        } else {
            Option::None
        }
    }

    /// Record the reduced value of the window handed out last. The value is
    /// appended while the array is short of the expected size and dropped
    /// once the size is reached, so the array never exceeds it.
    pub fn record_peak(&mut self, value: u32)
        requires
            wf(*old(self)),
            old(self).pending,
        ensures
            wf(*final(self)),
            !final(self).pending,
            final(self).expected == old(self).expected,
            final(self).window@ == old(self).window@,
            final(self).samples_seen == old(self).samples_seen,
            final(self).windows_done == old(self).windows_done,
            final(self).packets_since_emit == old(self).packets_since_emit,
            old(self).peaks@.len() < old(self).expected ==> final(self).peaks@ == old(
                self,
            ).peaks@.push(value),
            old(self).peaks@.len() >= old(self).expected ==> final(self).peaks@ == old(
                self,
            ).peaks@,
    {
        if self.peaks.len() < self.expected {
            self.peaks.push(value);
        }
        self.pending = false;
    }

    /// Count one decoded packet; true about every hundredth packet, when a
    /// progressive snapshot should be emitted.
    pub fn packet_tick(&mut self) -> (emit: bool)
        requires
            wf(*old(self)),
        ensures
            wf(*final(self)),
            emit == (old(self).packets_since_emit >= 100),
            final(self).packets_since_emit == if emit {
                0int
            } else {
                old(self).packets_since_emit + 1
            },
            *final(self) == (PeaksAccumulator {
                packets_since_emit: final(self).packets_since_emit,
                ..*old(self)
            }),
    {
        if self.packets_since_emit >= 100 {
            self.packets_since_emit = 0;
            true
        } else {
            self.packets_since_emit = self.packets_since_emit + 1;
            false
        }
    }

    /// The progressive snapshot: the peaks recorded so far, padded with
    /// trailing zeros to exactly the expected size. Emitted while the pass
    /// runs, and well-formed even when the pass is cancelled early.
    pub fn padded_snapshot(&self) -> (out: Vec<u32>)
        requires
            wf(*self),
        ensures
            out@.len() == self.expected,
            out@.take(self.peaks@.len() as int) == self.peaks@,
            forall|i: int| self.peaks@.len() <= i < self.expected ==> out@[i] == 0u32,
    {
        let mut out: Vec<u32> = Vec::new();
        let mut i: usize = 0;
        while i < self.peaks.len()
            invariant
                i <= self.peaks@.len(),
                out@ == self.peaks@.take(i as int),
            decreases self.peaks@.len() - i,
        {
            out.push(self.peaks[i]);
            i = i + 1;
        }
        proof {
            assert(out@ =~= self.peaks@);
        }
        while i < self.expected
            invariant
                self.peaks@.len() <= i <= self.expected,
                out@.len() == i,
                out@.take(self.peaks@.len() as int) == self.peaks@,
                forall|j: int| self.peaks@.len() <= j < i ==> out@[j] == 0u32,
            decreases self.expected - i,
        {
            out.push(0);
            i = i + 1;
        }
        out
    }
}

/// The peaks array never outgrows the expected size, at any point of the
/// pass.
pub proof fn lemma_peaks_never_exceed_expected(a: PeaksAccumulator)
    requires
        wf(a),
    ensures
        a.peaks@.len() <= a.expected,
{
}

/// On a clean end of stream — every sample fed, every window recorded — the
/// pass yields exactly one peak per full window of the stream, up to the
/// expected size; when the stream held exactly the frames the track
/// declared, that is exactly the expected size.
pub proof fn lemma_clean_eos_length(a: PeaksAccumulator)
    requires
        wf(a),
        !a.pending,
    ensures
        a.peaks@.len() == capped(a.samples_seen as int / (WINDOW_SAMPLES as int), a.expected as int),
        a.expected == a.samples_seen as int / (WINDOW_SAMPLES as int) ==> a.peaks@.len()
            == a.expected,
{
    lemma_fundamental_div_mod_converse(
        a.samples_seen as int,
        WINDOW_SAMPLES as int,
        a.windows_done as int,
        a.window@.len() as int,
    );
}

} // verus!
