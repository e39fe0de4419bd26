//! What the decode loop does with one packet: skip it, wrap the loop region,
//! drop it, or write it — and with which click-suppression ramps.

use vstd::prelude::*;

verus! {

/// What the format reader reports about one packet: its presentation
/// timestamp and duration in the track timebase, and the track it belongs
/// to.
pub struct PacketInfo {
    pub ts: u64,
    pub dur: u64,
    pub track_id: u32,
}

/// The decode loop's verdict on a packet.
pub enum PacketDecision {
    /// The packet belongs to another track: read the next one.
    Skip,
    /// The packet lies past the loop region: seek back to the loop start and
    /// continue as a transition.
    LoopBack,
    /// The packet precedes the seek target, or the iteration was cancelled:
    /// decode it but let no sample reach the sink.
    Drop,
    /// Write the decoded samples, ramping the given number of frames up at
    /// the start and down at the end of the block.
    Write { ramp_up: u64, ramp_down: u64 },
}

/// Frames ramped down at the end of a written block: the whole packet, when
/// the track length is known and the packet reaches the end of the track.
pub open spec fn spec_ramp_down(p: PacketInfo, n_frames: Option<u64>) -> u64 {
    match n_frames {
        Option::Some(n) => if p.ts + p.dur >= n {
            p.dur
        } else {
            0
        },
        Option::None => 0,
    }
}

/// Frames ramped up at the start of a written block: the whole packet, when
/// the track length is known, the packet starts within one duration of the
/// track start, and it is not already the closing ramp.
pub open spec fn spec_ramp_up(p: PacketInfo, n_frames: Option<u64>) -> u64 {
    match n_frames {
        Option::Some(n) => if p.ts + p.dur < n && p.ts < p.dur {
            p.dur
        } else {
            0
        },
        Option::None => 0,
    }
}

/// The verdict on a packet, in order: a packet of another track is skipped;
/// one past an active loop region wraps the region; one under the seek
/// target, or one arriving after cancellation, is dropped; every other
/// packet is written, with ramps at the track's edges.
pub open spec fn spec_decide_packet(
    p: PacketInfo,
    track_id: u32,
    end_pos_frame: Option<u64>,
    seek_ts: u64,
    n_frames: Option<u64>,
    cancelled: bool,
) -> PacketDecision {
    if p.track_id != track_id {
        PacketDecision::Skip
    } else if end_pos_frame matches Option::Some(e) && p.ts > e {
        PacketDecision::LoopBack
    } else if cancelled || p.ts < seek_ts {
        PacketDecision::Drop
    } else {
        PacketDecision::Write {
            ramp_up: spec_ramp_up(p, n_frames),
            ramp_down: spec_ramp_down(p, n_frames),
        }
    }
}

pub fn decide_packet(
    p: &PacketInfo,
    track_id: u32,
    end_pos_frame: &Option<u64>,
    seek_ts: u64,
    n_frames: &Option<u64>,
    cancelled: bool,
) -> (d: PacketDecision)
    ensures
        d == spec_decide_packet(*p, track_id, *end_pos_frame, seek_ts, *n_frames, cancelled),
{
    if p.track_id != track_id {
        return PacketDecision::Skip;
    }
    if let Option::Some(e) = end_pos_frame {
        if p.ts > *e {
            return PacketDecision::LoopBack;
        }
    }
    if cancelled || p.ts < seek_ts {
        return PacketDecision::Drop;
    }
    let mut ramp_up: u64 = 0;
    let mut ramp_down: u64 = 0;
    if let Option::Some(n) = n_frames {
        if *n <= p.dur || p.ts >= *n - p.dur {
            ramp_down = p.dur;
        } else if p.ts < p.dur {
            ramp_up = p.dur;
        }
    }
    PacketDecision::Write { ramp_up, ramp_down }
}

/// Packets before the seek target never reach the sink: whatever else holds,
/// a packet whose timestamp lies under the seek target is never written.
pub proof fn lemma_seek_gate(
    p: PacketInfo,
    track_id: u32,
    end_pos_frame: Option<u64>,
    seek_ts: u64,
    n_frames: Option<u64>,
    cancelled: bool,
)
    requires
        p.ts < seek_ts,
    ensures
        !(spec_decide_packet(p, track_id, end_pos_frame, seek_ts, n_frames, cancelled)
            is Write),
{
}

/// With a loop region active, every written packet lies inside the region:
/// its timestamp is at least the seek target (the loop start) and at most
/// the region's end. The offsets the sink sees under a loop therefore stay
/// within the region until the wrap resets them to the start.
pub proof fn lemma_loop_writes_bounded(
    p: PacketInfo,
    track_id: u32,
    end_frame: u64,
    seek_ts: u64,
    n_frames: Option<u64>,
    cancelled: bool,
)
    requires
        spec_decide_packet(p, track_id, Option::Some(end_frame), seek_ts, n_frames, cancelled)
            is Write,
    ensures
        seek_ts <= p.ts <= end_frame,
{
}

/// Under a loop region the sink's offsets stay inside the region: the
/// sample offset of every written packet — its timestamp times the channel
/// count — lies between the loop start's offset and the loop end's offset.
/// A packet that would pass the end wraps instead, and the wrap re-seeks to
/// the start, whose offset is where the published sequence resets.
pub proof fn lemma_loop_offsets_in_region(
    p: PacketInfo,
    track_id: u32,
    end_frame: u64,
    seek_ts: u64,
    n_frames: Option<u64>,
    cancelled: bool,
    channels: u32,
)
    requires
        spec_decide_packet(p, track_id, Option::Some(end_frame), seek_ts, n_frames, cancelled)
            is Write,
    ensures
        seek_ts * channels <= p.ts * channels <= end_frame * channels,
{
    lemma_loop_writes_bounded(p, track_id, end_frame, seek_ts, n_frames, cancelled);
    assert(seek_ts * channels <= p.ts * channels) by (nonlinear_arith)
        requires
            seek_ts <= p.ts,
            channels >= 0,
    ;
    assert(p.ts * channels <= end_frame * channels) by (nonlinear_arith)
        requires
            p.ts <= end_frame,
            channels >= 0,
    ;
}

/// Without a loop region the progression is linear: no packet ever wraps.
pub proof fn lemma_no_wrap_when_disabled(
    p: PacketInfo,
    track_id: u32,
    seek_ts: u64,
    n_frames: Option<u64>,
    cancelled: bool,
)
    ensures
        !(spec_decide_packet(p, track_id, Option::None, seek_ts, n_frames, cancelled)
            is LoopBack),
{
}

/// Every session with a known length fades at both edges: the packet that
/// reaches the end of the track is written with a closing ramp over its
/// whole duration, and the packet at the start of the track with an opening
/// ramp over its whole duration — while interior packets are written with no
/// ramp at all.
pub proof fn lemma_session_edge_ramps(
    p: PacketInfo,
    track_id: u32,
    seek_ts: u64,
    n: u64,
    cancelled: bool,
)
    requires
        spec_decide_packet(p, track_id, Option::None, seek_ts, Option::Some(n), cancelled)
            is Write,
    ensures
        p.ts + p.dur >= n ==> spec_decide_packet(
            p,
            track_id,
            Option::None,
            seek_ts,
            Option::Some(n),
            cancelled,
        ) == (PacketDecision::Write { ramp_up: 0, ramp_down: p.dur }),
        p.ts + p.dur < n && p.ts < p.dur ==> spec_decide_packet(
            p,
            track_id,
            Option::None,
            seek_ts,
            Option::Some(n),
            cancelled,
        ) == (PacketDecision::Write { ramp_up: p.dur, ramp_down: 0 }),
        p.ts + p.dur < n && p.ts >= p.dur ==> spec_decide_packet(
            p,
            track_id,
            Option::None,
            seek_ts,
            Option::Some(n),
            cancelled,
        ) == (PacketDecision::Write { ramp_up: 0, ramp_down: 0 }),
{
}

} // verus!
