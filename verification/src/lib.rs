//! A verified core for a desktop audio player.
//!
//! The playback engine is a transport state machine: it consumes commands
//! (stop, play, pause, seek, load, select, set-volume), drives a
//! demux/decode/output loop, and reports timing events back to its caller.
//! Every control decision of that machine lives here as verified code; the
//! unverified shell around it performs the actual file, device and channel
//! I/O and feeds the outcomes back in as plain values.

pub mod commands;
pub mod engine;
pub mod library;
pub mod player;
pub mod playlist;
