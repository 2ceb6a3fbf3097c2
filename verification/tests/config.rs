use icapture::codec::Codec;
use icapture::config::{Config, ConfigError};

#[test]
fn test_from_invalid_file_defaults() {
    let file_path = "invalid_test_config.json";
    let missing = std::io::Error::new(std::io::ErrorKind::NotFound, file_path);
    let loaded_config = Config::new(Err(ConfigError::from(missing)));
    assert_eq!(loaded_config, Config::default());
}

#[test]
fn test_from_valid_file_succeeds() {
    let config = Config {
        device_id: 7,
        fps: 42,
        frame_width: 2560,
        frame_height: 1440,
        data_dir: "test directory".to_string(),
        codec: Codec::H264,
    };
    let loaded_config = Config::new(Ok(config.clone()));
    assert_eq!(loaded_config, config);
}

#[test]
fn default_config_values() {
    let config = Config::default();
    assert_eq!(config.device_id, 0);
    assert_eq!(config.fps, 30);
    assert_eq!(config.frame_width, 1920);
    assert_eq!(config.frame_height, 1080);
    assert_eq!(config.data_dir, "c:\\icapture_data");
    assert_eq!(config.codec, Codec::H264);
}

#[test]
fn malformed_json_falls_back_to_default() {
    let broken = serde_json::from_str::<serde_json::Value>("{ not json").unwrap_err();
    let config = Config::new(Err(ConfigError::from(broken)));
    assert_eq!(config, Config::default());
}

#[test]
fn config_errors_keep_their_kind() {
    let io = ConfigError::from(std::io::Error::new(std::io::ErrorKind::NotFound, "gone"));
    assert!(matches!(io, ConfigError::Io(_)));
    let json = ConfigError::from(serde_json::from_str::<serde_json::Value>("[").unwrap_err());
    assert!(matches!(json, ConfigError::Json(_)));
}

#[test]
fn clone_keeps_every_field() {
    let config = Config {
        device_id: 3,
        fps: 60,
        frame_width: 640,
        frame_height: 480,
        data_dir: "./out".to_string(),
        codec: Codec::WMV3,
    };
    assert_eq!(config.clone(), config);
}
