//! Capture/playback session layer over a platform audio subsystem.
//!
//! This crate holds the verified core of the engine: the PCM format
//! descriptor and its codec, stream timestamps, the device/session data
//! model, the stream lifecycle and buffer-pump decision logic, and the
//! session/device notification registries with their worker state machine.
//! The platform's COM-style surface (activation, buffer access, events,
//! threads) is operating-system I/O and lives outside the verified
//! library; it hands plain values in and takes plain values back.

pub mod activation_params;
pub mod audio_client;
pub mod audio_stream;
pub mod event_args;
pub mod manager;
pub mod notifications;
pub mod processes;
pub mod sample_format;
pub mod session_notification;
pub mod stream_instant;
pub mod strutil;
