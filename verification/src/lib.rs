//! A verified adapter that feeds queued, already-decoded audio assets into an
//! operating-system audio output device, retrying device initialization on
//! failure.
//!
//! The adapter has three parts:
//! - [`queue::Audio`]: the shared playback queue of pending asset references;
//! - [`store::AssetStore`]: the adapter's model of the keyed store of decoded
//!   assets (present means ready to play, absent means still loading);
//! - [`output::AudioOutput`]: the holder of at most one live device
//!   connection, together with the per-asset playback state machine.
//!
//! Opening a device and starting a playback voice are performed by the host
//! through an audio backend; the adapter decides, step by step, which of
//! those actions to take next and how their outcomes change its state. A
//! drain pass ([`output::AudioOutput::try_play_queued`]) removes every
//! request whose asset is decoded and re-queues the rest.

pub mod drain;
pub mod output;
pub mod queue;
pub mod store;
