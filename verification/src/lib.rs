//! Core of a real-time audio playback engine.
//!
//! The engine decodes compressed audio files, resamples them when the output
//! device cannot follow the source rate, and streams PCM frames through a
//! bounded ring buffer to a device callback. Everything that *decides* —
//! which packets are written, how sessions start and end, how commands are
//! handled, when the gapless transition is announced — lives here, stated in
//! contracts and proved. The host process around it performs the actual file,
//! device and UI I/O and hands this crate plain values.
//!
//! Samples are carried as opaque 32-bit words (the bit pattern of one PCM
//! sample); positions in a track are frame indices in the track's timebase;
//! points in time given by the user are milliseconds; volume is a fixed-point
//! gain in thousandths (0..=1000 spans silence to unity).

pub mod control;
pub mod devices;
pub mod packet;
pub mod peaks;
pub mod ramp;
pub mod ring;
pub mod session;
pub mod sink;
pub mod transition;
