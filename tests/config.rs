use std::path::PathBuf;

use neko_tts::config::{config_dir, config_file_in, config_file_path};
use neko_tts::types::{CloudProvider, EngineType, PlaybackState, TtsConfig, TtsRequest, LEVEL_ONE};

#[test]
fn config_dir_is_under_neko_tts() {
    let dir = PathBuf::from(config_dir().unwrap());
    assert!(dir.ends_with("neko-tts"));
}

#[test]
fn config_file_path_is_json() {
    let path = PathBuf::from(config_file_path().unwrap());
    assert_eq!(path.file_name().unwrap(), "config.json");
    assert!(path.parent().unwrap().ends_with("neko-tts"));
}

#[test]
fn config_file_under_given_base() {
    let path = config_file_in("/home/alice/.config");
    assert_eq!(PathBuf::from(path), PathBuf::from("/home/alice/.config/neko-tts/config.json"));
}

#[test]
fn tts_config_default_values() {
    let config = TtsConfig::default();
    assert_eq!(config.active_engine, EngineType::System);
    assert_eq!(config.default_rate, LEVEL_ONE);
    assert_eq!(config.default_pitch, LEVEL_ONE);
    assert_eq!(config.default_volume, LEVEL_ONE);
    assert!(config.system.voice.is_none());
    assert!(config.piper.model_path.is_none());
    assert!(config.piper.piper_binary.is_none());
    assert_eq!(config.cloud.provider, CloudProvider::OpenAI);
    assert!(config.cloud.api_key.is_none());
}

#[test]
fn tts_config_snapshot_is_equal() {
    let mut config = TtsConfig::default();
    config.cloud.api_key = Some("k".to_string());
    config.default_rate = 1500;
    assert_eq!(config.snapshot(), config);
}

#[test]
fn tts_request_with_defaults() {
    let req = TtsRequest {
        text: "Hello world".to_string(),
        engine: None,
        voice: None,
        rate: None,
        pitch: None,
        volume: None,
    };
    assert_eq!(req.text, "Hello world");
    assert!(req.engine.is_none());
    assert!(req.rate.is_none());
}

#[test]
fn engine_names_and_labels() {
    assert_eq!(EngineType::from_name("system"), Some(EngineType::System));
    assert_eq!(EngineType::from_name("piper"), Some(EngineType::Piper));
    assert_eq!(EngineType::from_name("cloud"), Some(EngineType::Cloud));
    assert_eq!(EngineType::from_name("Cloud"), None);
    assert_eq!(EngineType::from_name(""), None);
    assert_eq!(EngineType::Piper.label(), "Piper");
    assert_eq!(PlaybackState::Synthesizing.label(), "Synthesizing");
    assert_eq!(PlaybackState::Idle.label(), format!("{:?}", PlaybackState::Idle));
}
