//! The configuration of a capturing device.

use crate::codec::Codec;
use vstd::prelude::*;
use vstd::string::*;

verus! {

/// Desired settings of a capture handle.
#[derive(Debug, PartialEq)]
pub struct Config {
    /// Capturing device index
    pub device_id: u32,
    /// Desired FPS
    pub fps: u32,
    /// Desired frame width
    pub frame_width: u32,
    /// Desired frame height
    pub frame_height: u32,
    /// Path to store files at
    pub data_dir: String,
    /// Desired codec for saving video
    pub codec: Codec,
}

/// A `Config` with its directory as a character sequence.
pub struct ConfigView {
    pub device_id: u32,
    pub fps: u32,
    pub frame_width: u32,
    pub frame_height: u32,
    pub data_dir: Seq<char>,
    pub codec: Codec,
}

impl View for Config {
    type V = ConfigView;

    open spec fn view(&self) -> ConfigView {
        ConfigView {
            device_id: self.device_id,
            fps: self.fps,
            frame_width: self.frame_width,
            frame_height: self.frame_height,
            data_dir: self.data_dir@,
            codec: self.codec,
        }
    }
}

/// The configuration used when none can be loaded.
pub open spec fn default_config() -> ConfigView {
    ConfigView {
        device_id: 0,
        fps: 30,
        frame_width: 1920,
        frame_height: 1080,
        data_dir: "c:\\icapture_data"@,
        codec: Codec::H264,
    }
}

/// Why a configuration could not be loaded.
#[derive(Debug)]
pub enum ConfigError {
    /// I/O error
    Io(std::io::Error),
    /// JSON error
    Json(serde_json::Error),
}

impl From<std::io::Error> for ConfigError {
    fn from(err: std::io::Error) -> (e: ConfigError) {
        ConfigError::Io(err)
    }
}

impl vstd::std_specs::convert::FromSpecImpl<std::io::Error> for ConfigError {
    open spec fn obeys_from_spec() -> bool {
        true
    }

    open spec fn from_spec(err: std::io::Error) -> ConfigError {
        ConfigError::Io(err)
    }
}

impl From<serde_json::Error> for ConfigError {
    fn from(err: serde_json::Error) -> (e: ConfigError) {
        ConfigError::Json(err)
    }
}

impl vstd::std_specs::convert::FromSpecImpl<serde_json::Error> for ConfigError {
    open spec fn obeys_from_spec() -> bool {
        true
    }

    open spec fn from_spec(err: serde_json::Error) -> ConfigError {
        ConfigError::Json(err)
    }
}

impl Default for Config {
    fn default() -> (config: Self)
        ensures
            config@ == default_config(),
    {
        Config {
            device_id: 0,
            fps: 30,
            frame_width: 1920,
            frame_height: 1080,
            data_dir: String::from_str("c:\\icapture_data"),
            codec: Codec::H264,
        }
    }
}

impl Clone for Config {
    fn clone(&self) -> (copy: Self)
        ensures
            copy@ == self@,
    {
        Config {
            device_id: self.device_id,
            fps: self.fps,
            frame_width: self.frame_width,
            frame_height: self.frame_height,
            data_dir: self.data_dir.clone(),
            codec: self.codec,
        }
    }
}

impl Config {
    /// Settles the configuration to work with: the loaded one, or the
    /// default where loading failed.
    pub fn new(loaded: Result<Config, ConfigError>) -> (config: Self)
        ensures
            match loaded {
                Ok(found) => config == found,
                Err(_) => config@ == default_config(),
            },
    {
        match loaded {
            Ok(found) => found,
            Err(_) => Config::default(),
        }
    }
}

} // verus!
