//! Command handling: how stream, loop-region and device-change requests move
//! the decode loop's control state.

use player_engine::control::{
    ChangeAudioDeviceRequest, DecodeControl, EosAction, LoopRegionRequest, PlayerControlEvent,
    StreamFileRequest, latest_request, UNITY_VOLUME,
};

fn stream_request(path: &str, seek: Option<u64>, volume: Option<u32>) -> StreamFileRequest {
    StreamFileRequest {
        path: Some(path.to_string()),
        seek_millis: seek,
        volume,
        output_device: None,
    }
}

#[test]
fn stream_file_replaces_session() {
    let mut c = DecodeControl::new();
    let current = "a.flac".to_string();
    let d = c.apply_event_decoding(
        PlayerControlEvent::StreamFile(stream_request("b.flac", Some(5000), Some(800))),
        &current,
        false,
    );
    assert_eq!(c.path, Some("b.flac".to_string()));
    assert_eq!(c.seek_millis, 5000);
    assert_eq!(c.end_millis, None);
    assert_eq!(c.volume, 800);
    assert!(c.is_reset);
    assert!(d.cancel && d.flush);
    assert!(!d.pause_sink && !d.restore_pause);
}

#[test]
fn stream_file_missing_fields_use_defaults() {
    let mut c = DecodeControl::new();
    let current = "a.flac".to_string();
    c.apply_event_decoding(
        PlayerControlEvent::StreamFile(stream_request("b.flac", None, None)),
        &current,
        false,
    );
    // A missing seek is the start of the file; a missing volume keeps the
    // current gain.
    assert_eq!(c.seek_millis, 0);
    assert_eq!(c.volume, UNITY_VOLUME);
}

#[test]
fn stream_file_twice_is_one_request() {
    let current = "a.flac".to_string();
    let mut once = DecodeControl::new();
    once.apply_event_decoding(
        PlayerControlEvent::StreamFile(stream_request("b.flac", Some(1000), Some(700))),
        &current,
        false,
    );
    let mut twice = DecodeControl::new();
    twice.apply_event_decoding(
        PlayerControlEvent::StreamFile(stream_request("b.flac", Some(1000), Some(700))),
        &current,
        false,
    );
    twice.apply_event_decoding(
        PlayerControlEvent::StreamFile(stream_request("b.flac", Some(1000), Some(700))),
        &current,
        false,
    );
    assert_eq!(twice.path, once.path);
    assert_eq!(twice.seek_millis, once.seek_millis);
    assert_eq!(twice.end_millis, once.end_millis);
    assert_eq!(twice.volume, once.volume);
    assert_eq!(twice.device_name, once.device_name);
    assert_eq!(twice.is_reset, once.is_reset);
    assert_eq!(twice.is_transition, once.is_transition);
}

#[test]
fn loop_region_enable_then_disable() {
    let mut c = DecodeControl::new();
    let current = "a.flac".to_string();
    c.apply_event_decoding(
        PlayerControlEvent::LoopRegion(LoopRegionRequest {
            enabled: Some(true),
            start_millis: Some(10_000),
            end_millis: Some(12_000),
        }),
        &current,
        false,
    );
    assert_eq!(c.seek_millis, 10_000);
    assert_eq!(c.end_millis, Some(12_000));
    assert_eq!(c.path, Some("a.flac".to_string()));
    let d = c.apply_event_decoding(
        PlayerControlEvent::LoopRegion(LoopRegionRequest {
            enabled: Some(false),
            start_millis: None,
            end_millis: None,
        }),
        &current,
        false,
    );
    // Back to linear progression: no end position remains.
    assert_eq!(c.end_millis, None);
    assert_eq!(c.path, Some("a.flac".to_string()));
    assert!(d.cancel && d.flush);
}

#[test]
fn change_device_while_paused_restores_pause() {
    let mut c = DecodeControl::new();
    let current = "a.flac".to_string();
    let d = c.apply_event_decoding(
        PlayerControlEvent::ChangeAudioDevice(ChangeAudioDeviceRequest {
            audio_device: Some("X".to_string()),
        }),
        &current,
        true,
    );
    assert_eq!(c.device_name, Some("X".to_string()));
    assert_eq!(c.path, Some("a.flac".to_string()));
    assert!(c.is_reset);
    assert!(d.cancel && d.flush && d.pause_sink);
    assert!(d.restore_pause);
}

#[test]
fn change_device_without_name_keeps_current() {
    let mut c = DecodeControl::new();
    c.device_name = Some("Y".to_string());
    let current = "a.flac".to_string();
    let d = c.apply_event_decoding(
        PlayerControlEvent::ChangeAudioDevice(ChangeAudioDeviceRequest { audio_device: None }),
        &current,
        false,
    );
    assert_eq!(c.device_name, Some("Y".to_string()));
    assert!(!d.restore_pause);
}

#[test]
fn waiting_stream_file_sets_device() {
    let mut c = DecodeControl::new();
    let d = c.apply_event_waiting(PlayerControlEvent::StreamFile(StreamFileRequest {
        path: Some("a.flac".to_string()),
        seek_millis: Some(30_000),
        volume: Some(900),
        output_device: Some("Z".to_string()),
    }));
    assert_eq!(c.path, Some("a.flac".to_string()));
    assert_eq!(c.seek_millis, 30_000);
    assert_eq!(c.volume, 900);
    assert_eq!(c.device_name, Some("Z".to_string()));
    assert!(!d.cancel && !d.flush);
}

#[test]
fn end_of_stream_with_queued_track_is_gapless() {
    let mut c = DecodeControl::new();
    c.is_reset = false;
    let a = c.on_end_of_stream(Some(stream_request("b.flac", Some(0), None)));
    assert!(matches!(a, EosAction::BeginNext));
    assert_eq!(c.path, Some("b.flac".to_string()));
    assert_eq!(c.seek_millis, 0);
    // The new session is decoded ahead while the old tail drains: a
    // transition, not a reset.
    assert!(c.is_transition);
    assert!(!c.is_reset);
}

#[test]
fn end_of_stream_with_empty_queue_stops() {
    let mut c = DecodeControl::new();
    let a = c.on_end_of_stream(None);
    assert!(matches!(a, EosAction::DrainAndStop));
    assert_eq!(c.path, None);
}

#[test]
fn end_of_stream_with_pathless_request_stops() {
    let mut c = DecodeControl::new();
    let a = c.on_end_of_stream(Some(StreamFileRequest {
        path: None,
        seek_millis: None,
        volume: None,
        output_device: None,
    }));
    assert!(matches!(a, EosAction::DrainAndStop));
}

#[test]
fn queued_next_tracks_collapse_to_latest() {
    let queue = vec![
        stream_request("one.flac", None, None),
        stream_request("two.flac", None, None),
        stream_request("three.flac", None, None),
    ];
    let last = latest_request(queue).unwrap();
    assert_eq!(last.path, Some("three.flac".to_string()));
    assert!(latest_request(Vec::new()).is_none());
}
