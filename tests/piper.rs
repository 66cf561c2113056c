use std::path::PathBuf;

use neko_tts::engine::{CommandOutcome, CommandSpec};
use neko_tts::piper_tts::PiperTtsEngine;
use neko_tts::types::{TtsError, TtsRequest};

fn hello() -> TtsRequest {
    TtsRequest {
        text: "Hello".to_string(),
        engine: None,
        voice: None,
        rate: None,
        pitch: None,
        volume: None,
    }
}

#[test]
fn piper_engine_default_binary() {
    let engine = PiperTtsEngine::new(None, None);
    assert_eq!(PathBuf::from(engine.binary_path()), PathBuf::from("piper"));
    assert!(engine.model_path().is_none());
    assert_eq!(engine.name(), "Piper TTS");
}

#[test]
fn piper_engine_custom_binary_and_model() {
    let engine = PiperTtsEngine::new(
        Some("/opt/piper/piper".to_string()),
        Some("/models/en_US-lessac-medium.onnx".to_string()),
    );
    assert_eq!(PathBuf::from(engine.binary_path()), PathBuf::from("/opt/piper/piper"));
    assert_eq!(
        PathBuf::from(engine.model_path().unwrap()),
        PathBuf::from("/models/en_US-lessac-medium.onnx")
    );
}

#[test]
fn piper_engine_set_model() {
    let mut engine = PiperTtsEngine::new(None, None);
    assert!(engine.model_path().is_none());

    engine.set_model("/new/model.onnx");
    assert_eq!(PathBuf::from(engine.model_path().unwrap()), PathBuf::from("/new/model.onnx"));
}

#[test]
fn piper_engine_set_binary() {
    let mut engine = PiperTtsEngine::new(None, None);
    assert_eq!(PathBuf::from(engine.binary_path()), PathBuf::from("piper"));

    engine.set_binary("/usr/local/bin/piper");
    assert_eq!(PathBuf::from(engine.binary_path()), PathBuf::from("/usr/local/bin/piper"));
}

#[test]
fn piper_list_voices_no_model() {
    let engine = PiperTtsEngine::new(None, None);
    let voices = engine.list_voices();
    assert!(voices.is_empty());
}

#[test]
fn piper_list_voices_with_model() {
    let engine = PiperTtsEngine::new(None, Some("/models/en_US-lessac-medium.onnx".to_string()));
    let voices = engine.list_voices();
    assert_eq!(voices.len(), 1);
    assert_eq!(voices[0].name, "en_US-lessac-medium");
    assert_eq!(voices[0].id, "/models/en_US-lessac-medium.onnx");
    assert!(voices[0].language.is_none());
}

#[test]
fn piper_voice_without_stem_is_named_piper_model() {
    let engine = PiperTtsEngine::new(None, Some("/".to_string()));
    let voices = engine.voices_for_stem(None);
    assert_eq!(voices.len(), 1);
    assert_eq!(voices[0].name, "piper-model");
    assert_eq!(voices[0].id, "/");
}

#[test]
fn piper_synthesize_no_model_configured() {
    let engine = PiperTtsEngine::new(None, None);
    let result = engine.synthesize_command(&hello(), false);
    assert!(result.is_err());
    assert!(result.unwrap_err().message().contains("No Piper model configured"));
}

#[test]
fn piper_synthesize_model_not_found() {
    let engine = PiperTtsEngine::new(None, Some("/nonexistent/path/model.onnx".to_string()));
    let exists = PathBuf::from(engine.model_path().unwrap()).exists();
    let result = engine.synthesize_command(&hello(), exists);
    assert!(result.is_err());
    let message = result.unwrap_err().message();
    assert!(message.contains("Piper model not found"));
    assert_eq!(message, "Piper model not found: /nonexistent/path/model.onnx");
}

#[test]
fn piper_synthesize_command_feeds_text() {
    let engine = PiperTtsEngine::new(Some("/opt/piper".to_string()), Some("/m.onnx".to_string()));
    let cmd = engine.synthesize_command(&hello(), true).unwrap();
    assert_eq!(
        cmd,
        CommandSpec {
            program: "/opt/piper".to_string(),
            args: vec!["--model".into(), "/m.onnx".into(), "--output_file".into(), "-".into()],
            stdin_text: Some("Hello".to_string()),
            audio_file: None,
        }
    );
    let probe = engine.availability_command();
    assert_eq!(probe.program, "/opt/piper");
    assert_eq!(probe.args, vec!["--help".to_string()]);
}

#[test]
fn piper_finish_success_and_failure() {
    let engine = PiperTtsEngine::new(None, Some("/m.onnx".to_string()));
    let ok = engine
        .finish_synthesis(CommandOutcome { success: true, audio: vec![1, 2, 3], errors: vec![] })
        .unwrap();
    assert_eq!(ok.audio_data, vec![1, 2, 3]);
    assert_eq!(ok.sample_rate, 22050);
    assert_eq!(ok.channels, 1);
    assert_eq!(ok.format, "wav");
    let err = engine
        .finish_synthesis(CommandOutcome { success: false, audio: vec![], errors: b"bad model".to_vec() })
        .unwrap_err();
    assert_eq!(err, TtsError::SynthesisFailure("Piper TTS failed: bad model".to_string()));
}
