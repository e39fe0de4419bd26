//! The click-suppression gain schedule. A written block of frames may carry
//! a ramp over its first frames (gain rising from zero) and one over its
//! last frames (gain falling to zero); every other frame passes at unity.
//! The gain of one frame is the exact rational `num / den`; the host
//! multiplies each of the frame's samples by it, per channel.

use vstd::prelude::*;

verus! {

/// The gain of one frame, as the rational `num / den` (`den` is never zero).
pub struct Gain {
    pub num: u64,
    pub den: u64,
}

/// The gain of frame `i` in a block of `n` frames written with `ramp_up`
/// rising frames and `ramp_down` falling frames. The rising ramp takes
/// precedence where the two would overlap.
pub open spec fn spec_frame_gain(i: u64, n: u64, ramp_up: u64, ramp_down: u64) -> Gain {
    if i < ramp_up {
        Gain { num: i, den: ramp_up }
    } else if i + ramp_down >= n {
        Gain { num: (n - 1 - i) as u64, den: ramp_down }
    } else {
        Gain { num: 1, den: 1 }
    }
}

pub fn frame_gain(i: u64, n: u64, ramp_up: u64, ramp_down: u64) -> (g: Gain)
    requires
        i < n,
    ensures
        g == spec_frame_gain(i, n, ramp_up, ramp_down),
        g.den > 0,
        g.num <= g.den,
{
    if i < ramp_up {
        Gain { num: i, den: ramp_up }
    } else if n <= ramp_down || i >= n - ramp_down {
        Gain { num: n - 1 - i, den: ramp_down }
    } else {
        Gain { num: 1, den: 1 }
    }
}

/// The shape of the schedule: the rising ramp starts at silence and grows
/// linearly with the frame index, the interior passes at unity, and the
/// falling ramp shrinks linearly to exact silence on the block's last
/// frame.
pub proof fn lemma_ramp_shape(i: u64, n: u64, ramp_up: u64, ramp_down: u64)
    requires
        i < n,
    ensures
        i < ramp_up ==> spec_frame_gain(i, n, ramp_up, ramp_down) == (Gain {
            num: i,
            den: ramp_up,
        }),
        i == 0 && ramp_up > 0 ==> spec_frame_gain(i, n, ramp_up, ramp_down).num == 0,
        ramp_up <= i && i + ramp_down < n ==> spec_frame_gain(i, n, ramp_up, ramp_down) == (Gain {
            num: 1,
            den: 1,
        }),
        ramp_up <= i && i + ramp_down >= n ==> spec_frame_gain(i, n, ramp_up, ramp_down) == (Gain {
            num: (n - 1 - i) as u64,
            den: ramp_down,
        }),
        i == n - 1 && ramp_down > 0 && ramp_up <= i ==> spec_frame_gain(
            i,
            n,
            ramp_up,
            ramp_down,
        ).num == 0,
{
}

/// Both ramps are monotone: within the rising ramp a later frame never has
/// a smaller gain, and within the falling ramp a later frame never has a
/// larger one.
pub proof fn lemma_ramp_monotone(i: u64, j: u64, n: u64, ramp_up: u64, ramp_down: u64)
    requires
        i <= j < n,
    ensures
        j < ramp_up ==> spec_frame_gain(i, n, ramp_up, ramp_down).num <= spec_frame_gain(
            j,
            n,
            ramp_up,
            ramp_down,
        ).num,
        ramp_up <= i && i + ramp_down >= n ==> spec_frame_gain(i, n, ramp_up, ramp_down).num
            >= spec_frame_gain(j, n, ramp_up, ramp_down).num,
{
}

} // verus!
