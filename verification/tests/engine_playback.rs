//! The playback path: packet decisions, the ring buffer, ramps, the sink's
//! tick, session setup and the gapless transition clock.

use player_engine::packet::{decide_packet, PacketDecision, PacketInfo};
use player_engine::ramp::frame_gain;
use player_engine::ring::SampleRingBuffer;
use player_engine::devices::devices_from_names;
use player_engine::session::{
    default_max_frames, effective_device, first_supported_track, is_passthrough, needs_rebuild,
    rate_supported, resolve_seek, should_reset_audio, ResamplerConfig, SeekOutcome,
};
use player_engine::sink::SinkControl;
use player_engine::transition::{TransitionClock, TransitionStep};

fn packet(ts: u64, dur: u64, track_id: u32) -> PacketInfo {
    PacketInfo { ts, dur, track_id }
}

#[test]
fn packets_before_seek_target_are_dropped() {
    // Seek to 30 s of a 48 kHz stereo file: seek_ts is 1 440 000 frames and
    // the first published offset is 2 880 000 samples.
    let seek_ts: u64 = 30 * 48_000;
    assert_eq!(
        player_engine::session::sample_offset_for(seek_ts, 2),
        2_880_000
    );
    let d = decide_packet(&packet(seek_ts - 1, 1152, 1), 1, &None, seek_ts, &None, false);
    assert!(matches!(d, PacketDecision::Drop));
    let d = decide_packet(&packet(seek_ts, 1152, 1), 1, &None, seek_ts, &None, false);
    assert!(matches!(d, PacketDecision::Write { ramp_up: 0, ramp_down: 0 }));
}

#[test]
fn foreign_track_packets_are_skipped() {
    let d = decide_packet(&packet(0, 1152, 2), 1, &None, 0, &None, false);
    assert!(matches!(d, PacketDecision::Skip));
}

#[test]
fn cancelled_iteration_writes_nothing() {
    let d = decide_packet(&packet(10_000, 1152, 1), 1, &None, 0, &None, true);
    assert!(matches!(d, PacketDecision::Drop));
}

#[test]
fn loop_region_wraps_and_stays_inside() {
    // Loop 10 s .. 12 s at 48 kHz: frames 480 000 .. 576 000.
    let start_frame = player_engine::session::end_pos_frame_idx(10_000, 48_000);
    let end_frame = player_engine::session::end_pos_frame_idx(12_000, 48_000);
    assert_eq!(start_frame, 480_000);
    assert_eq!(end_frame, 576_000);
    // A packet past the region wraps; no ramp is involved at the wrap.
    let d = decide_packet(&packet(end_frame + 1, 1152, 1), 1, &Some(end_frame), start_frame, &None, false);
    assert!(matches!(d, PacketDecision::LoopBack));
    // Packets inside the region are written plainly; their sample offsets
    // stay within [start, end] * channels.
    for ts in [start_frame, 500_000, end_frame - 1152] {
        let d = decide_packet(&packet(ts, 1152, 1), 1, &Some(end_frame), start_frame, &None, false);
        assert!(matches!(d, PacketDecision::Write { ramp_up: 0, ramp_down: 0 }));
        let offset = player_engine::session::sample_offset_for(ts, 2);
        assert!(10_000 * 48 * 2 <= offset && offset <= 12_000 * 48 * 2);
    }
    // One before the start would be dropped by the seek gate instead.
    let d = decide_packet(&packet(start_frame - 1, 1152, 1), 1, &Some(end_frame), start_frame, &None, false);
    assert!(matches!(d, PacketDecision::Drop));
}

#[test]
fn session_edges_are_ramped() {
    let n_frames: u64 = 14_400_000; // 300 s at 48 kHz
    // The packet reaching the end of the track fades out over its whole
    // duration.
    let d = decide_packet(&packet(n_frames - 1152, 1152, 1), 1, &None, 0, &Some(n_frames), false);
    assert!(matches!(d, PacketDecision::Write { ramp_up: 0, ramp_down: 1152 }));
    // The packet at the start fades in.
    let d = decide_packet(&packet(0, 1152, 1), 1, &None, 0, &Some(n_frames), false);
    assert!(matches!(d, PacketDecision::Write { ramp_up: 1152, ramp_down: 0 }));
    // Interior packets are untouched.
    let d = decide_packet(&packet(1_000_000, 1152, 1), 1, &None, 0, &Some(n_frames), false);
    assert!(matches!(d, PacketDecision::Write { ramp_up: 0, ramp_down: 0 }));
}

#[test]
fn ramp_gain_shape() {
    // Rising ramp over a whole block: silence first, growing linearly.
    let g = frame_gain(0, 1152, 1152, 0);
    assert_eq!((g.num, g.den), (0, 1152));
    let g = frame_gain(576, 1152, 1152, 0);
    assert_eq!((g.num, g.den), (576, 1152));
    // Falling ramp over a whole block: silence on the very last frame.
    let g = frame_gain(1151, 1152, 0, 1152);
    assert_eq!((g.num, g.den), (0, 1152));
    let g = frame_gain(0, 1152, 0, 1152);
    assert_eq!((g.num, g.den), (1151, 1152));
    // Interior frames pass at unity.
    let g = frame_gain(100, 1152, 0, 0);
    assert_eq!((g.num, g.den), (1, 1));
}

#[test]
fn ring_buffer_reads_what_was_written() {
    let mut ring = SampleRingBuffer::new(8);
    let n = ring.write(&vec![1, 2, 3, 4, 5]);
    assert_eq!(n, 5);
    assert!(ring.has_remaining_samples());
    let out = ring.read(3);
    assert_eq!(out, vec![1, 2, 3]);
    // A read past what is buffered pads with silence and never blocks.
    let out = ring.read(4);
    assert_eq!(out, vec![4, 5, 0, 0]);
    assert!(!ring.has_remaining_samples());
}

#[test]
fn ring_buffer_takes_only_what_fits() {
    let mut ring = SampleRingBuffer::new(4);
    let n = ring.write(&vec![1, 2, 3, 4, 5, 6]);
    assert_eq!(n, 4);
    assert_eq!(ring.len(), 4);
    assert_eq!(ring.available(), 0);
    let n = ring.write(&vec![7]);
    assert_eq!(n, 0);
}

#[test]
fn flush_clears_residue_before_next_session() {
    let mut ring = SampleRingBuffer::new(8);
    ring.write(&vec![9, 9, 9]);
    ring.flush();
    assert!(!ring.has_remaining_samples());
    // With nothing remaining, the next write lands at the read head.
    ring.write(&vec![1, 2]);
    assert_eq!(ring.read(2), vec![1, 2]);
}

#[test]
fn volume_takes_effect_within_one_tick() {
    let mut sink = SinkControl::new(1000);
    sink.enqueue_volume(200);
    sink.enqueue_volume(300);
    sink.begin_tick();
    assert_eq!(sink.current_volume, 300);
    assert_eq!(sink.volume_queue.len(), 0);
    // No queued change: the gain stays.
    sink.begin_tick();
    assert_eq!(sink.current_volume, 300);
}

#[test]
fn sink_offset_resets_and_advances_monotonically() {
    let mut sink = SinkControl::new(1000);
    sink.advance(4096);
    assert_eq!(sink.sample_offset, 4096);
    sink.enqueue_offset_reset(2_880_000);
    sink.begin_tick();
    assert_eq!(sink.sample_offset, 2_880_000);
    let before = sink.sample_offset;
    sink.advance(1024);
    assert!(sink.sample_offset >= before);
    assert_eq!(sink.sample_offset, 2_881_024);
}

#[test]
fn sink_pause_state_and_reset_pulse() {
    let mut sink = SinkControl::new(1000);
    sink.enqueue_state(false);
    sink.enqueue_reset();
    sink.begin_tick();
    assert!(!sink.playing);
    assert!(sink.reset_edge);
    // The pulse is one-shot.
    sink.begin_tick();
    assert!(!sink.reset_edge);
}

#[test]
fn unsupported_rate_routes_through_resampler() {
    // The device is fixed at 48 kHz; the file plays at 44.1 kHz.
    let ranges = vec![(48_000u32, 48_000u32)];
    assert!(!rate_supported(&ranges, 44_100));
    assert!(rate_supported(&ranges, 48_000));
    // An unsupported rate does not reopen the sink...
    let dev = "default".to_string();
    assert!(!should_reset_audio(&dev, &dev, false, 44_100, 48_000, 2, 2));
    // ...it rebuilds the converter, which is not pass-through.
    let wanted = ResamplerConfig {
        in_rate: 44_100,
        in_channels: 2,
        out_rate: 48_000,
        out_channels: 2,
        block_size: 1152,
    };
    assert!(needs_rebuild(&None, &wanted));
    assert!(!is_passthrough(&wanted));
    assert!(!needs_rebuild(&Some(ResamplerConfig { ..wanted }), &wanted));
}

#[test]
fn sink_reopens_on_device_or_spec_change() {
    let a = "a".to_string();
    let b = "b".to_string();
    assert!(should_reset_audio(&a, &b, false, 44_100, 44_100, 2, 2));
    assert!(should_reset_audio(&a, &a, true, 48_000, 44_100, 2, 2));
    assert!(should_reset_audio(&a, &a, false, 44_100, 44_100, 1, 2));
    assert!(!should_reset_audio(&a, &a, true, 44_100, 44_100, 2, 2));
}

#[test]
fn seek_outcomes_resolve_as_documented() {
    let r = resolve_seek(&SeekOutcome::SeekedTo(1_440_000));
    assert_eq!(r.seek_ts, 1_440_000);
    assert!(!r.switch_track);
    let r = resolve_seek(&SeekOutcome::ResetRequired);
    assert_eq!(r.seek_ts, 0);
    assert!(r.switch_track);
    let r = resolve_seek(&SeekOutcome::Failed);
    assert_eq!(r.seek_ts, 0);
    assert!(!r.switch_track);
}

#[test]
fn first_supported_track_skips_null_codecs() {
    assert_eq!(first_supported_track(&vec![0, 0, 7, 3]), Some(2));
    assert_eq!(first_supported_track(&vec![0, 0]), None);
    assert_eq!(first_supported_track(&vec![5]), Some(0));
}

#[test]
fn transition_announces_no_earlier_than_five_seconds() {
    let mut clock = TransitionClock::new();
    // Without a transition, packets pass silently.
    assert!(matches!(clock.on_packet_decoded(500), TransitionStep::Idle));
    clock.begin();
    // The first decoded packet of the new session starts the clock.
    assert!(matches!(clock.on_packet_decoded(1_000), TransitionStep::Started));
    // Too early: the announcement is withheld.
    assert!(matches!(clock.on_packet_decoded(5_999), TransitionStep::Idle));
    // Five seconds after the first packet, the track is announced.
    assert!(matches!(clock.on_packet_decoded(6_000), TransitionStep::Announce));
    // The transition is over.
    assert!(matches!(clock.on_packet_decoded(7_000), TransitionStep::Idle));
}

#[test]
fn default_packet_duration_is_1152() {
    assert_eq!(default_max_frames(None), 1152);
    assert_eq!(default_max_frames(Some(4096)), 4096);
}

#[test]
fn follow_system_output_overrides_device() {
    let configured = Some("card".to_string());
    assert_eq!(effective_device(true, &configured), None);
    assert_eq!(effective_device(false, &configured), Some("card".to_string()));
}

#[test]
fn device_enumeration_keeps_names_in_order() {
    let names = vec!["a".to_string(), "b".to_string()];
    let d = devices_from_names(&names, Some("a".to_string()));
    assert_eq!(d.devices.len(), 2);
    assert_eq!(d.devices[0].name, "a");
    assert_eq!(d.devices[1].name, "b");
    assert_eq!(d.default.unwrap().name, "a");
    let d = devices_from_names(&Vec::new(), None);
    assert!(d.devices.is_empty());
    assert!(d.default.is_none());
}
