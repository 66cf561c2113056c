use neko_tts::engine::{CommandOutcome, CommandSpec};
use neko_tts::system_tts::{
    detect_backend, sapi_rate_of, words_per_minute_of, HostPlatform, SystemBackend, SystemTtsEngine,
};
use neko_tts::types::{TtsError, TtsRequest, VoiceInfo};

fn request(text: &str, rate: Option<u32>, voice: Option<&str>) -> TtsRequest {
    TtsRequest {
        text: text.to_string(),
        engine: None,
        voice: voice.map(String::from),
        rate,
        pitch: None,
        volume: None,
    }
}

#[test]
fn backend_detection() {
    assert_eq!(detect_backend(HostPlatform::Linux, true, true), SystemBackend::EspeakNg);
    assert_eq!(detect_backend(HostPlatform::Linux, false, true), SystemBackend::Espeak);
    assert_eq!(detect_backend(HostPlatform::Linux, false, false), SystemBackend::Missing);
    assert_eq!(detect_backend(HostPlatform::MacOs, false, false), SystemBackend::Say);
    assert_eq!(detect_backend(HostPlatform::Windows, false, false), SystemBackend::Sapi);
    assert_eq!(detect_backend(HostPlatform::Other, true, true), SystemBackend::Missing);
}

#[test]
fn rate_mappings() {
    assert_eq!(words_per_minute_of(1000), 175);
    assert_eq!(words_per_minute_of(1500), 262);
    assert_eq!(words_per_minute_of(500), 87);
    assert_eq!(sapi_rate_of(1000), 0);
    assert_eq!(sapi_rate_of(2000), 10);
    assert_eq!(sapi_rate_of(500), -5);
    assert_eq!(sapi_rate_of(1550), 5);
    assert_eq!(sapi_rate_of(950), 0);
}

#[test]
fn espeak_command_line() {
    let engine = SystemTtsEngine::new(SystemBackend::EspeakNg);
    let cmd = engine.synthesize_command(&request("Hello", Some(1500), Some("en")), "/tmp/x.wav").unwrap();
    assert_eq!(
        cmd,
        CommandSpec {
            program: "espeak-ng".to_string(),
            args: vec!["--stdout".into(), "-s".into(), "262".into(), "-v".into(), "en".into(), "Hello".into()],
            stdin_text: None,
            audio_file: None,
        }
    );
}

#[test]
fn say_command_line() {
    let engine = SystemTtsEngine::new(SystemBackend::Say);
    let cmd = engine.synthesize_command(&request("Hi", None, None), "/tmp/a.aiff").unwrap();
    assert_eq!(cmd.program, "say");
    assert_eq!(cmd.args, vec!["-o", "/tmp/a.aiff", "-r", "175", "Hi"]);
    assert_eq!(cmd.audio_file.as_deref(), Some("/tmp/a.aiff"));
}

#[test]
fn sapi_command_script() {
    let engine = SystemTtsEngine::new(SystemBackend::Sapi);
    let cmd = engine.synthesize_command(&request("say \"x\"", Some(500), None), "C:\\t.wav").unwrap();
    assert_eq!(cmd.program, "powershell");
    assert_eq!(cmd.args[0], "-NoProfile");
    assert_eq!(cmd.args[1], "-Command");
    assert_eq!(
        cmd.args[2],
        "Add-Type -AssemblyName System.Speech\n$synth = New-Object System.Speech.Synthesis.SpeechSynthesizer\n$synth.Rate = -5\n$synth.SetOutputToWaveFile(\"C:\\t.wav\")\n$synth.Speak(\"say `\"x`\"\")\n$synth.Dispose()\n"
    );
}

#[test]
fn missing_backend_is_unavailable() {
    let engine = SystemTtsEngine::new(SystemBackend::Missing);
    assert!(!engine.is_available());
    let err = engine.synthesize_command(&request("Hi", None, None), "/tmp/x").unwrap_err();
    assert_eq!(err, TtsError::EngineUnavailable("No system TTS backend available".to_string()));
    assert!(engine.voices_command().is_none());
    assert_eq!(engine.name(), "System TTS");
}

#[test]
fn system_finish_results() {
    let engine = SystemTtsEngine::new(SystemBackend::Espeak);
    let ok = engine
        .finish_synthesis(CommandOutcome { success: true, audio: vec![4, 5], errors: vec![] })
        .unwrap();
    assert_eq!(ok.audio_data, vec![4, 5]);
    assert_eq!((ok.sample_rate, ok.channels, ok.format.as_str()), (22050, 1, "wav"));
    let err = engine
        .finish_synthesis(CommandOutcome { success: false, audio: vec![], errors: vec![b'n', b'o', 0xFF] })
        .unwrap_err();
    assert_eq!(err.message(), "espeak failed: no\u{FFFD}");
    let say = SystemTtsEngine::new(SystemBackend::Say);
    let ok = say.finish_synthesis(CommandOutcome { success: true, audio: vec![1], errors: vec![] }).unwrap();
    assert_eq!(ok.format, "aiff");
}

#[test]
fn espeak_voice_listing_is_parsed() {
    let engine = SystemTtsEngine::new(SystemBackend::EspeakNg);
    let listing = "Pty Language       Age/Gender VoiceName          File                 Other Languages\n 5  af              --/M      Afrikaans          gmw/af\n 5  en-us           --/M      English_(America)  gmw/en-US            (en 10)\n 5  short line here\n";
    let voices = engine.parse_voices(listing);
    assert_eq!(
        voices,
        vec![
            VoiceInfo { id: "gmw/af".into(), name: "Afrikaans".into(), language: Some("af".into()) },
            VoiceInfo { id: "gmw/en-US".into(), name: "English_(America)".into(), language: Some("en-us".into()) },
        ]
    );
    let cmd = engine.voices_command().unwrap();
    assert_eq!(cmd.program, "espeak-ng");
    assert_eq!(cmd.args, vec!["--voices"]);
}

#[test]
fn say_voice_listing_is_parsed() {
    let engine = SystemTtsEngine::new(SystemBackend::Say);
    let voices = engine.parse_voices("Alex                en_US    # Most people recognize me.\nSolo\n\n");
    assert_eq!(
        voices,
        vec![
            VoiceInfo { id: "Alex".into(), name: "Alex".into(), language: Some("en_US".into()) },
            VoiceInfo { id: "Solo".into(), name: "Solo".into(), language: None },
        ]
    );
}

#[test]
fn sapi_voice_listing_is_parsed() {
    let engine = SystemTtsEngine::new(SystemBackend::Sapi);
    let voices = engine.parse_voices("Microsoft David Desktop|en-US\n\nNoCulture\n");
    assert_eq!(
        voices,
        vec![
            VoiceInfo { id: "Microsoft David Desktop".into(), name: "Microsoft David Desktop".into(), language: Some("en-US".into()) },
            VoiceInfo { id: "NoCulture".into(), name: "NoCulture".into(), language: None },
        ]
    );
}
