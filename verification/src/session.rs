//! Decisions made while a playback session is being set up: resolving the
//! initial seek, choosing the output device, deciding whether the sink must
//! be reopened, and planning the resampler.

use vstd::prelude::*;

verus! {

/// Packet duration assumed when the codec does not report one.
pub const DEFAULT_MAX_FRAMES_PER_PACKET: u64 = 1152;

/// Outcome of asking the format reader to seek, as reported by the host.
pub enum SeekOutcome {
    /// The reader seeked; the value is the timestamp actually reached,
    /// in the track's timebase.
    SeekedTo(u64),
    /// The reader demands a reset: the selected track is gone.
    ResetRequired,
    /// The seek failed for any other reason.
    Failed,
}

/// What the engine does with a seek outcome.
pub struct SeekResolution {
    /// Packets with a timestamp below this are dropped.
    pub seek_ts: u64,
    /// True when the first supported track must be re-selected.
    pub switch_track: bool,
}

/// How a seek outcome is absorbed: a successful seek installs the reached
/// timestamp as the drop threshold; a reset-required failure restarts at the
/// first supported track from timestamp zero; any other failure is ignored
/// and nothing is trimmed.
pub open spec fn spec_resolve_seek(outcome: SeekOutcome) -> SeekResolution {
    match outcome {
        SeekOutcome::SeekedTo(ts) => SeekResolution { seek_ts: ts, switch_track: false },
        SeekOutcome::ResetRequired => SeekResolution { seek_ts: 0, switch_track: true },
        SeekOutcome::Failed => SeekResolution { seek_ts: 0, switch_track: false },
    }
}

pub fn resolve_seek(outcome: &SeekOutcome) -> (r: SeekResolution)
    ensures
        r == spec_resolve_seek(*outcome),
{
    match outcome {
        SeekOutcome::SeekedTo(ts) => SeekResolution { seek_ts: *ts, switch_track: false },
        SeekOutcome::ResetRequired => SeekResolution { seek_ts: 0, switch_track: true },
        SeekOutcome::Failed => SeekResolution { seek_ts: 0, switch_track: false },
    }
}

/// The packet duration used for ramp lengths and the resampler block size:
/// what the codec reports, or 1152 frames when it reports nothing.
pub fn default_max_frames(reported: Option<u64>) -> (r: u64)
    ensures
        r == (match reported {
            Option::Some(d) => d,
            Option::None => DEFAULT_MAX_FRAMES_PER_PACKET,
        }),
{
    match reported {
        Option::Some(d) => d,
        Option::None => DEFAULT_MAX_FRAMES_PER_PACKET,
    }
}

/// The device name handed to the device lookup: when the user follows the
/// system default, any explicitly configured name is overridden.
pub fn effective_device(follow_system_output: bool, configured: &Option<String>) -> (r: Option<
    String,
>)
    ensures
        follow_system_output ==> r is None,
        !follow_system_output ==> r == *configured,
{
    if follow_system_output {
        Option::None
    } else {
        match configured {
            Option::Some(name) => Option::Some(name.clone()),
            Option::None => Option::None,
        }
    }
}

/// True when the configuration range, a (min, max) pair of sample rates,
/// contains the rate.
pub open spec fn range_admits(range: (u32, u32), rate: u32) -> bool {
    range.0 <= rate <= range.1
}

/// True when some supported configuration range of the device contains the
/// rate: each entry is the (min, max) sample rate of one configuration.
pub fn rate_supported(ranges: &Vec<(u32, u32)>, rate: u32) -> (r: bool)
    ensures
        r == exists|i: int| 0 <= i < ranges@.len() && #[trigger] range_admits(ranges@[i], rate),
{
    let mut k: usize = 0;
    while k < ranges.len()
        invariant
            k <= ranges@.len(),
            forall|i: int| 0 <= i < k ==> !(#[trigger] range_admits(ranges@[i], rate)),
        decreases ranges@.len() - k,
    {
        let (lo, hi) = ranges[k];
        if lo <= rate && rate <= hi {
            assert(range_admits(ranges@[k as int], rate));
            return true;
        }
        k = k + 1;
    }
    false
}

/// Whether the sink must be (re)opened for a new session: the device name
/// changed, or the device supports the source rate and the rate changed, or
/// the channel count changed. A rate the device cannot follow does not reopen
/// the sink — such a session is resampled instead.
pub open spec fn spec_should_reset_audio(
    prev_device: Seq<char>,
    device: Seq<char>,
    supports_rate: bool,
    rate: u32,
    prev_rate: u32,
    channels: u32,
    prev_channels: u32,
) -> bool {
    prev_device != device || (supports_rate && rate != prev_rate) || channels != prev_channels
}

pub fn should_reset_audio(
    prev_device: &String,
    device: &String,
    supports_rate: bool,
    rate: u32,
    prev_rate: u32,
    channels: u32,
    prev_channels: u32,
) -> (r: bool)
    ensures
        r == spec_should_reset_audio(
            prev_device@,
            device@,
            supports_rate,
            rate,
            prev_rate,
            channels,
            prev_channels,
        ),
{
    *prev_device != *device || (supports_rate && rate != prev_rate) || channels != prev_channels
}

/// The loop region's end position converted from milliseconds to a frame
/// index in the track timebase.
pub fn end_pos_frame_idx(end_millis: u64, rate: u32) -> (r: u64)
    requires
        end_millis * rate <= u64::MAX,
    ensures
        r == end_millis * rate / 1000,
{
    let wide: u64 = end_millis * (rate as u64);
    wide / 1000
}

/// The sample offset published to the sink for a position: frame index times
/// channel count (offsets are counted in samples, not frames).
pub fn sample_offset_for(frame_idx: u64, channels: u32) -> (r: u64)
    requires
        frame_idx * channels <= u64::MAX,
    ensures
        r == frame_idx * channels,
{
    frame_idx * (channels as u64)
}

/// The codec id that marks a track as unplayable.
pub const NULL_CODEC: u32 = 0;

/// The index of the first track whose codec is supported, given each track's
/// codec id in order.
pub fn first_supported_track(codec_ids: &Vec<u32>) -> (r: Option<usize>)
    ensures
        match r {
            Option::Some(i) => i < codec_ids@.len() && codec_ids@[i as int] != NULL_CODEC
                && forall|j: int| 0 <= j < i ==> codec_ids@[j] == NULL_CODEC,
            Option::None => forall|j: int|
                0 <= j < codec_ids@.len() ==> codec_ids@[j] == NULL_CODEC,
        },
{
    let mut k: usize = 0;
    while k < codec_ids.len()
        invariant
            k <= codec_ids@.len(),
            forall|j: int| 0 <= j < k ==> codec_ids@[j] == NULL_CODEC,
        decreases codec_ids@.len() - k,
    {
        if codec_ids[k] != NULL_CODEC {
            return Option::Some(k);
        }
        k = k + 1;
    }
    Option::None
}

/// The converter configuration installed for a session.
pub struct ResamplerConfig {
    pub in_rate: u32,
    pub in_channels: u32,
    pub out_rate: u32,
    pub out_channels: u32,
    pub block_size: u64,
}

/// Whether the installed converter can be kept for a session: it is rebuilt
/// whenever there is none, or the source spec, the sink spec or the block
/// size differs from what it was built with.
pub open spec fn spec_needs_rebuild(current: Option<ResamplerConfig>, wanted: ResamplerConfig) -> bool {
    match current {
        Option::Some(c) => c != wanted,
        Option::None => true,
    }
}

pub fn needs_rebuild(current: &Option<ResamplerConfig>, wanted: &ResamplerConfig) -> (r: bool)
    ensures
        r == spec_needs_rebuild(*current, *wanted),
{
    match current {
        Option::Some(c) => !(c.in_rate == wanted.in_rate && c.in_channels == wanted.in_channels
            && c.out_rate == wanted.out_rate && c.out_channels == wanted.out_channels
            && c.block_size == wanted.block_size),
        Option::None => true,
    }
}

/// True when the converter may run in pass-through mode: source and sink
/// spec match exactly, so frames are forwarded unchanged.
pub fn is_passthrough(config: &ResamplerConfig) -> (r: bool)
    ensures
        r == (config.in_rate == config.out_rate && config.in_channels == config.out_channels),
{
    config.in_rate == config.out_rate && config.in_channels == config.out_channels
}

} // verus!
