//! The control state of the decode loop and how each command changes it.
//!
//! Commands arrive over a FIFO from the UI. The decode loop polls them at two
//! points — while it waits for a file and once per packet while decoding —
//! and a command received while paused is absorbed before decoding resumes.
//! The functions here are those decisions: they take the current control
//! state and one event, and say exactly what the next state is and what the
//! loop must do to the sink (cancel, flush, pause, restore the pause gate).

use vstd::prelude::*;

verus! {

/// Volume of full (unity) gain, in thousandths.
pub const UNITY_VOLUME: u32 = 1000;

/// A request to start playing a file. Positions are milliseconds; volume is
/// a gain in thousandths. Absent seek means the start of the file, absent
/// volume keeps the current gain, absent device keeps the current device.
pub struct StreamFileRequest {
    pub path: Option<String>,
    pub seek_millis: Option<u64>,
    pub volume: Option<u32>,
    pub output_device: Option<String>,
}

/// A request to enable, retarget or disable the loop region, in milliseconds.
pub struct LoopRegionRequest {
    pub enabled: Option<bool>,
    pub start_millis: Option<u64>,
    pub end_millis: Option<u64>,
}

/// A request to switch the output device; an absent name keeps the current
/// device.
pub struct ChangeAudioDeviceRequest {
    pub audio_device: Option<String>,
}

/// One command delivered to the decode loop.
pub enum PlayerControlEvent {
    StreamFile(StreamFileRequest),
    LoopRegion(LoopRegionRequest),
    ChangeAudioDevice(ChangeAudioDeviceRequest),
}

/// The decode loop's control state. `path` is the file to load next: while it
/// is absent the loop waits for a command; loading a session takes it.
pub struct DecodeControl {
    pub path: Option<String>,
    pub seek_millis: u64,
    pub end_millis: Option<u64>,
    pub volume: u32,
    pub device_name: Option<String>,
    pub is_reset: bool,
    pub is_transition: bool,
}

/// What the decode loop must do to the running machinery after absorbing an
/// event.
pub struct Directives {
    /// Abandon the current decode iteration.
    pub cancel: bool,
    /// Discard everything still buffered for the sink.
    pub flush: bool,
    /// Pause the sink (a device change silences output until resume).
    pub pause_sink: bool,
    /// The event was absorbed while paused: the pause gate must be restored
    /// after handling, so playback does not resume on its own.
    pub restore_pause: bool,
}

/// An event the decode loop can absorb without panicking: a stream request
/// carries a path, and a loop-region request says whether it enables the
/// region and, when it does, carries both endpoints.
pub open spec fn event_ready(e: PlayerControlEvent) -> bool {
    match e {
        PlayerControlEvent::StreamFile(r) => r.path is Some,
        PlayerControlEvent::LoopRegion(r) => r.enabled is Some && (r.enabled == Option::Some(true)
            ==> r.start_millis is Some && r.end_millis is Some),
        PlayerControlEvent::ChangeAudioDevice(_) => true,
    }
}

/// The control state after an event is absorbed while the loop is waiting
/// for a file (no session is loaded).
pub open spec fn spec_apply_waiting(s: DecodeControl, e: PlayerControlEvent) -> DecodeControl {
    match e {
        PlayerControlEvent::StreamFile(r) => DecodeControl {
            path: r.path,
            seek_millis: match r.seek_millis {
                Option::Some(v) => v,
                Option::None => 0,
            },
            volume: match r.volume {
                Option::Some(v) => v,
                Option::None => s.volume,
            },
            device_name: match r.output_device {
                Option::Some(d) => Option::Some(d),
                Option::None => s.device_name,
            },
            is_transition: false,
            ..s
        },
        PlayerControlEvent::LoopRegion(r) => DecodeControl {
            seek_millis: if r.enabled == Option::Some(true) {
                r.start_millis->Some_0
            } else {
                s.seek_millis
            },
            end_millis: if r.enabled == Option::Some(true) {
                r.end_millis
            } else {
                Option::None
            },
            is_transition: false,
            ..s
        },
        PlayerControlEvent::ChangeAudioDevice(r) => DecodeControl {
            device_name: match r.audio_device {
                Option::Some(d) => Option::Some(d),
                Option::None => s.device_name,
            },
            is_reset: true,
            is_transition: false,
            ..s
        },
    }
}

/// The control state after an event is absorbed during decoding, while
/// `current_path` is playing. Every event invalidates the current read
/// position, so every arm marks a reset; a loop-region or device change
/// reloads the playing file.
pub open spec fn spec_apply_decoding(
    s: DecodeControl,
    e: PlayerControlEvent,
    current_path: String,
) -> DecodeControl {
    match e {
        PlayerControlEvent::StreamFile(r) => DecodeControl {
            path: r.path,
            seek_millis: match r.seek_millis {
                Option::Some(v) => v,
                Option::None => 0,
            },
            end_millis: Option::None,
            volume: match r.volume {
                Option::Some(v) => v,
                Option::None => s.volume,
            },
            is_reset: true,
            ..s
        },
        PlayerControlEvent::LoopRegion(r) => DecodeControl {
            path: Option::Some(current_path),
            seek_millis: if r.enabled == Option::Some(true) {
                r.start_millis->Some_0
            } else {
                s.seek_millis
            },
            end_millis: if r.enabled == Option::Some(true) {
                r.end_millis
            } else {
                Option::None
            },
            is_reset: true,
            ..s
        },
        PlayerControlEvent::ChangeAudioDevice(r) => DecodeControl {
            path: Option::Some(current_path),
            device_name: match r.audio_device {
                Option::Some(d) => Option::Some(d),
                Option::None => s.device_name,
            },
            is_reset: true,
            ..s
        },
    }
}

/// What the loop does to the sink for an event absorbed during decoding.
pub open spec fn spec_directives_decoding(e: PlayerControlEvent, is_paused: bool) -> Directives {
    match e {
        PlayerControlEvent::StreamFile(_) => Directives {
            cancel: true,
            flush: true,
            pause_sink: false,
            restore_pause: false,
        },
        PlayerControlEvent::LoopRegion(_) => Directives {
            cancel: true,
            flush: true,
            pause_sink: false,
            restore_pause: false,
        },
        PlayerControlEvent::ChangeAudioDevice(_) => Directives {
            cancel: true,
            flush: true,
            pause_sink: true,
            restore_pause: is_paused,
        },
    }
}

impl DecodeControl {
    /// The state of a freshly started engine: nothing to play, start of the
    /// file, unity gain, the system's device, and the first session treated
    /// as a reset.
    pub fn new() -> (s: DecodeControl)
        ensures
            s.path is None,
            s.seek_millis == 0,
            s.end_millis is None,
            s.volume == UNITY_VOLUME,
            s.device_name is None,
            s.is_reset,
            !s.is_transition,
    {
        DecodeControl {
            path: Option::None,
            seek_millis: 0,
            end_millis: Option::None,
            volume: UNITY_VOLUME,
            device_name: Option::None,
            is_reset: true,
            is_transition: false,
        }
    }

    /// Absorb an event while waiting for a file. A waiting loop is not in a
    /// transition; a loop-region or device change received now cancels the
    /// (idle) iteration, and a device change forces the next session to
    /// reopen the sink.
    pub fn apply_event_waiting(&mut self, event: PlayerControlEvent) -> (d: Directives)
        requires
            event_ready(event),
        ensures
            *final(self) == spec_apply_waiting(*old(self), event),
            d.cancel == !(event is StreamFile),
            !d.flush && !d.pause_sink && !d.restore_pause,
    {
        match event {
            PlayerControlEvent::StreamFile(r) => {
                self.path = r.path;
                self.seek_millis = match r.seek_millis {
                    Option::Some(v) => v,
                    Option::None => 0,
                };
                self.volume = match r.volume {
                    Option::Some(v) => v,
                    Option::None => self.volume,
                };
                if let Option::Some(d) = r.output_device {
                    self.device_name = Option::Some(d);
                }
                self.is_transition = false;
                Directives { cancel: false, flush: false, pause_sink: false, restore_pause: false }
            },
            PlayerControlEvent::LoopRegion(r) => {
                let enabled = match r.enabled {
                    Option::Some(b) => b,
                    Option::None => false,
                };
                if enabled {
                    self.seek_millis = match r.start_millis {
                        Option::Some(v) => v,
                        Option::None => 0,
                    };
                    self.end_millis = r.end_millis;
                } else {
                    self.end_millis = Option::None;
                }
                self.is_transition = false;
                Directives { cancel: true, flush: false, pause_sink: false, restore_pause: false }
            },
            PlayerControlEvent::ChangeAudioDevice(r) => {
                if let Option::Some(d) = r.audio_device {
                    self.device_name = Option::Some(d);
                }
                self.is_reset = true;
                self.is_transition = false;
                Directives { cancel: true, flush: false, pause_sink: false, restore_pause: false }
            },
        }
    }

    /// Absorb an event during decoding. `current_path` is the playing
    /// file. With `is_paused` set, the event arrived during a pause, and
    /// a device change puts the pause gate back afterwards.
    pub fn apply_event_decoding(
        &mut self,
        event: PlayerControlEvent,
        current_path: &String,
        is_paused: bool,
    ) -> (d: Directives)
        requires
            event_ready(event),
        ensures
            *final(self) == spec_apply_decoding(*old(self), event, *current_path),
            d == spec_directives_decoding(event, is_paused),
    {
        match event {
            PlayerControlEvent::StreamFile(r) => {
                self.path = r.path;
                self.seek_millis = match r.seek_millis {
                    Option::Some(v) => v,
                    Option::None => 0,
                };
                self.end_millis = Option::None;
                self.volume = match r.volume {
                    Option::Some(v) => v,
                    Option::None => self.volume,
                };
                self.is_reset = true;
                Directives { cancel: true, flush: true, pause_sink: false, restore_pause: false }
            },
            PlayerControlEvent::LoopRegion(r) => {
                let enabled = match r.enabled {
                    Option::Some(b) => b,
                    Option::None => false,
                };
                if enabled {
                    self.seek_millis = match r.start_millis {
                        Option::Some(v) => v,
                        Option::None => 0,
                    };
                    self.end_millis = r.end_millis;
                } else {
                    self.end_millis = Option::None;
                }
                self.path = Option::Some(current_path.clone());
                self.is_reset = true;
                Directives { cancel: true, flush: true, pause_sink: false, restore_pause: false }
            },
            PlayerControlEvent::ChangeAudioDevice(r) => {
                if let Option::Some(d) = r.audio_device {
                    self.device_name = Option::Some(d);
                }
                self.path = Option::Some(current_path.clone());
                self.is_reset = true;
                Directives {
                    cancel: true,
                    flush: true,
                    pause_sink: true,
                    restore_pause: is_paused,
                }
            },
        }
    }
}

/// Repeating a stream request changes nothing: absorbing the same
/// `StreamFile` event twice during decoding leaves the very state that one
/// absorption leaves, so the sink output differs from a single request only
/// by the flush at the boundary.
pub proof fn lemma_stream_file_idempotent(
    s: DecodeControl,
    r: StreamFileRequest,
    current_path: String,
)
    requires
        event_ready(PlayerControlEvent::StreamFile(r)),
    ensures
        spec_apply_decoding(
            spec_apply_decoding(s, PlayerControlEvent::StreamFile(r), current_path),
            PlayerControlEvent::StreamFile(r),
            current_path,
        ) == spec_apply_decoding(s, PlayerControlEvent::StreamFile(r), current_path),
{
}

/// Disabling the loop region erases every trace it left in the control
/// state apart from the seek position: after enable followed by disable,
/// the state equals the state after a disable alone with the loop's start
/// installed as the seek position. In particular no end position remains,
/// so packet decisions return to linear progression.
pub proof fn lemma_loop_region_round_trip(
    s: DecodeControl,
    enable: LoopRegionRequest,
    disable: LoopRegionRequest,
    current_path: String,
)
    requires
        enable.enabled == Option::Some(true),
        enable.start_millis is Some,
        enable.end_millis is Some,
        disable.enabled == Option::Some(false),
    ensures
        ({
            let once = spec_apply_decoding(
                s,
                PlayerControlEvent::LoopRegion(enable),
                current_path,
            );
            let back = spec_apply_decoding(
                once,
                PlayerControlEvent::LoopRegion(disable),
                current_path,
            );
            &&& back.end_millis is None
            &&& back == spec_apply_decoding(
                DecodeControl { seek_millis: enable.start_millis->Some_0, ..s },
                PlayerControlEvent::LoopRegion(disable),
                current_path,
            )
        }),
{
}

/// What ends a session at end of stream.
pub enum EosAction {
    /// A queued track follows without a gap: load it immediately.
    BeginNext,
    /// Nothing is queued: let the buffer drain, pause the sink, report the
    /// stop.
    DrainAndStop,
}

/// The last entry of the drained next-track queue; several queued entries
/// collapse to the latest.
pub fn latest_request(queue: Vec<StreamFileRequest>) -> (r: Option<StreamFileRequest>)
    ensures
        queue@.len() == 0 ==> r is None,
        queue@.len() > 0 ==> r == Option::Some(queue@.last()),
{
    let mut q = queue;
    q.pop()
}

impl DecodeControl {
    /// Absorb the end of the stream: when the drained queue held a request
    /// with a path, that file becomes the next session, decoded ahead as a
    /// gapless transition (no reset, so the old tail keeps draining);
    /// otherwise the loop lets the buffer empty and stops.
    pub fn on_end_of_stream(&mut self, next: Option<StreamFileRequest>) -> (a: EosAction)
        ensures
            match next {
                Option::Some(r) => {
                    if r.path is Some {
                        &&& a is BeginNext
                        &&& *final(self) == DecodeControl {
                            path: r.path,
                            seek_millis: match r.seek_millis {
                                Option::Some(v) => v,
                                Option::None => 0,
                            },
                            volume: match r.volume {
                                Option::Some(v) => v,
                                Option::None => old(self).volume,
                            },
                            is_transition: true,
                            is_reset: false,
                            ..*old(self)
                        }
                    } else {
                        a is DrainAndStop && *final(self) == *old(self)
                    }
                },
                Option::None => a is DrainAndStop && *final(self) == *old(self),
            },
    {
        match next {
            Option::Some(r) => {
                if r.path.is_some() {
                    self.path = r.path;
                    self.seek_millis = match r.seek_millis {
                        Option::Some(v) => v,
                        Option::None => 0,
                    };
                    self.volume = match r.volume {
                        Option::Some(v) => v,
                        Option::None => self.volume,
                    };
                    self.is_transition = true;
                    self.is_reset = false;
                    EosAction::BeginNext
                } else {
                    EosAction::DrainAndStop
                }
            },
            Option::None => EosAction::DrainAndStop,
        }
    }
}

} // verus!
