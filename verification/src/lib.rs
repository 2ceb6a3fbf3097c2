//! Capture-resource lifecycle for a single video device: the exclusivity
//! guard, the handle's operations and the pacing of a recording, stated as
//! decisions over plain values so that a driver can perform the hardware work.

pub mod capture;
pub mod codec;
pub mod config;
pub mod device;
pub mod error;
pub mod file;
pub mod guard;
pub mod outside;
pub mod preview;
pub mod recording;
pub mod server;
pub mod text;

pub use capture::Capture;
pub use config::Config;
pub use error::CaptureError;
