use neko_tts::engine::{CommandOutcome, HttpResponse, SynthesisOutcome, SynthesisPlan};
use neko_tts::manager::{resolve_request, SynthesisHost, TtsManager, VoiceQuery};
use neko_tts::system_tts::SystemBackend;
use neko_tts::types::{CloudProvider, EngineType, PlaybackState, TtsConfig, TtsError, TtsRequest};

fn host() -> SynthesisHost {
    SynthesisHost { piper_model_exists: false, audio_file: "/tmp/out.wav".to_string() }
}

fn hello() -> TtsRequest {
    TtsRequest { text: "Hello".to_string(), engine: None, voice: None, rate: None, pitch: None, volume: None }
}

fn audio_ok() -> SynthesisOutcome {
    SynthesisOutcome::Command(CommandOutcome { success: true, audio: vec![1, 2], errors: vec![] })
}

#[test]
fn default_request_goes_to_system_at_nominal_rate() {
    let mut m = TtsManager::new(TtsConfig::default(), SystemBackend::EspeakNg, true);
    let job = m.speak(hello(), &host()).unwrap();
    assert_eq!(job.engine, EngineType::System);
    assert_eq!(job.request.rate, Some(1000));
    assert_eq!(m.get_state(), PlaybackState::Synthesizing);
    match job.plan {
        SynthesisPlan::Command(c) => {
            assert_eq!(c.program, "espeak-ng");
            assert_eq!(c.args, vec!["--stdout", "-s", "175", "Hello"]);
        }
        SynthesisPlan::Http(_) => panic!("system engine planned an HTTP request"),
    }
}

#[test]
fn unset_levels_take_current_defaults() {
    let mut config = TtsConfig::default();
    config.default_rate = 1300;
    config.default_pitch = 900;
    config.default_volume = 700;
    let r = resolve_request(&config, hello());
    assert_eq!((r.rate, r.pitch, r.volume), (Some(1300), Some(900), Some(700)));
    let mut m = TtsManager::new(TtsConfig::default(), SystemBackend::EspeakNg, true);
    m.update_config(config);
    let job = m.speak(hello(), &host()).unwrap();
    assert_eq!(job.request.rate, Some(1300));
    assert_eq!(job.request.volume, Some(700));
}

#[test]
fn set_levels_override_defaults() {
    let mut req = hello();
    req.rate = Some(1800);
    req.pitch = Some(600);
    req.volume = Some(0);
    let mut other = TtsConfig::default();
    other.default_rate = 500;
    let a = resolve_request(&TtsConfig::default(), req.clone());
    let b = resolve_request(&other, req);
    assert_eq!((a.rate, a.pitch, a.volume), (Some(1800), Some(600), Some(0)));
    assert_eq!((b.rate, b.pitch, b.volume), (Some(1800), Some(600), Some(0)));
}

#[test]
fn stop_while_idle_stays_idle() {
    let mut m = TtsManager::new(TtsConfig::default(), SystemBackend::EspeakNg, false);
    assert_eq!(m.get_state(), PlaybackState::Idle);
    assert!(m.stop(Ok(())).is_ok());
    assert_eq!(m.get_state(), PlaybackState::Idle);
    let failed = m.stop(Err(TtsError::PlayerUnresponsive("Audio player thread died".into())));
    assert!(failed.is_err());
    assert_eq!(m.get_state(), PlaybackState::Idle);
}

#[test]
fn pause_then_resume_is_playing() {
    let mut m = TtsManager::new(TtsConfig::default(), SystemBackend::EspeakNg, true);
    m.speak(hello(), &host()).unwrap();
    let r = m.synthesis_result(EngineType::System, audio_ok());
    m.finish_speak(r).unwrap();
    assert_eq!(m.get_state(), PlaybackState::Playing);
    m.pause(Ok(())).unwrap();
    assert_eq!(m.get_state(), PlaybackState::Paused);
    m.resume(Ok(())).unwrap();
    assert_eq!(m.get_state(), PlaybackState::Playing);
}

#[test]
fn failed_synthesis_then_success_clears_error() {
    let mut m = TtsManager::new(TtsConfig::default(), SystemBackend::EspeakNg, true);
    m.speak(hello(), &host()).unwrap();
    let r = m.synthesis_result(EngineType::System, SynthesisOutcome::Failed("spawn failed".into()));
    let err = m.finish_speak(r).unwrap_err();
    assert_eq!(err, TtsError::SynthesisFailure("spawn failed".into()));
    assert_eq!(m.get_state(), PlaybackState::Error);
    m.speak(hello(), &host()).unwrap();
    let r = m.synthesis_result(EngineType::System, audio_ok());
    let t = m.finish_speak(r).unwrap();
    assert_eq!(t.audio_data, vec![1, 2]);
    assert_eq!(m.get_state(), PlaybackState::Playing);
}

#[test]
fn unavailable_engine_fails_speak_with_error_state() {
    let mut m = TtsManager::new(TtsConfig::default(), SystemBackend::Missing, true);
    let err = m.speak(hello(), &host()).unwrap_err();
    assert_eq!(err, TtsError::EngineUnavailable("No system TTS backend available".into()));
    assert_eq!(m.get_state(), PlaybackState::Error);
    let mut req = hello();
    req.engine = Some(EngineType::Cloud);
    let err = m.speak(req, &host()).unwrap_err();
    assert_eq!(err.message(), "Cloud TTS not configured");
}

#[test]
fn no_player_reports_no_audio_device() {
    let mut m = TtsManager::new(TtsConfig::default(), SystemBackend::EspeakNg, false);
    m.speak(hello(), &host()).unwrap();
    let r = m.synthesis_result(EngineType::System, audio_ok());
    let err = m.finish_speak(r).unwrap_err();
    assert_eq!(err, TtsError::NoAudioDevice("No audio output device available".into()));
    assert_eq!(m.get_state(), PlaybackState::Error);
    assert!(m.stop(Ok(())).is_ok());
    assert_eq!(m.get_state(), PlaybackState::Idle);
}

#[test]
fn empty_cloud_credential_is_not_available() {
    let mut config = TtsConfig::default();
    config.cloud.api_key = Some(String::new());
    let m = TtsManager::new(config, SystemBackend::EspeakNg, true);
    assert!(m.cloud_engine().is_none());
    assert_eq!(m.get_available_engines(false), vec![EngineType::System]);
    assert_eq!(m.get_available_engines(true), vec![EngineType::System, EngineType::Piper]);
}

#[test]
fn configured_cloud_engine_is_available_and_planned() {
    let mut config = TtsConfig::default();
    config.active_engine = EngineType::Cloud;
    config.cloud.provider = CloudProvider::Google;
    config.cloud.api_key = Some("gk".into());
    let mut m = TtsManager::new(config, SystemBackend::Missing, true);
    assert_eq!(m.get_available_engines(false), vec![EngineType::Cloud]);
    let job = m.speak(hello(), &host()).unwrap();
    assert_eq!(job.engine, EngineType::Cloud);
    match job.plan {
        SynthesisPlan::Http(h) => assert_eq!(h.url, "https://texttospeech.googleapis.com/v1/text:synthesize?key=gk"),
        SynthesisPlan::Command(_) => panic!("cloud engine planned a subprocess"),
    }
    match m.list_voices(&EngineType::Cloud) {
        VoiceQuery::Ready(v) => assert_eq!(v.len(), 4),
        VoiceQuery::Run(_) => panic!("cloud voices need no program"),
    }
}

#[test]
fn piper_speak_needs_existing_model() {
    let mut config = TtsConfig::default();
    config.active_engine = EngineType::Piper;
    config.piper.model_path = Some("/m/voice.onnx".into());
    let mut m = TtsManager::new(config, SystemBackend::Missing, true);
    let err = m.speak(hello(), &host()).unwrap_err();
    assert_eq!(err.message(), "Piper model not found: /m/voice.onnx");
    let present = SynthesisHost { piper_model_exists: true, audio_file: String::new() };
    let job = m.speak(hello(), &present).unwrap();
    assert_eq!(job.engine, EngineType::Piper);
    match m.list_voices(&EngineType::Piper) {
        VoiceQuery::Ready(v) => assert_eq!(v[0].name, "voice"),
        VoiceQuery::Run(_) => panic!("piper voices need no program"),
    }
}

#[test]
fn update_and_get_config_round_trip() {
    let mut m = TtsManager::new(TtsConfig::default(), SystemBackend::Say, true);
    let mut config = TtsConfig::default();
    config.default_pitch = 1234;
    config.system.voice = Some("Alex".into());
    m.update_config(config.clone());
    assert_eq!(m.get_config(), config);
    match m.list_voices(&EngineType::System) {
        VoiceQuery::Run(c) => assert_eq!(c.program, "say"),
        VoiceQuery::Ready(_) => panic!("say voices come from a program"),
    }
}

#[test]
fn synthesis_results_by_engine() {
    let mut config = TtsConfig::default();
    config.cloud.api_key = Some("k".into());
    let m = TtsManager::new(config, SystemBackend::Say, true);
    let say = m.synthesis_result(EngineType::System, audio_ok()).unwrap();
    assert_eq!(say.format, "aiff");
    let piper_err = m
        .synthesis_result(
            EngineType::Piper,
            SynthesisOutcome::Command(CommandOutcome { success: false, audio: vec![], errors: b"oops".to_vec() }),
        )
        .unwrap_err();
    assert_eq!(piper_err.message(), "Piper TTS failed: oops");
    let cloud = m
        .synthesis_result(
            EngineType::Cloud,
            SynthesisOutcome::Http(HttpResponse { status: 200, status_line: "200 OK".into(), body: vec![7] }),
        )
        .unwrap();
    assert_eq!((cloud.audio_data, cloud.sample_rate), (vec![7], 24000));
    assert!(matches!(
        m.synthesis_result(EngineType::Cloud, audio_ok()),
        Err(TtsError::SynthesisFailure(_))
    ));
    let no_cloud = TtsManager::new(TtsConfig::default(), SystemBackend::Say, true);
    let err = no_cloud
        .synthesis_result(
            EngineType::Cloud,
            SynthesisOutcome::Http(HttpResponse { status: 200, status_line: "200 OK".into(), body: vec![] }),
        )
        .unwrap_err();
    assert_eq!(err, TtsError::EngineUnavailable("Cloud TTS not configured".into()));
}
