use vstd::prelude::*;

use crate::text::text_eq;

verus! {

/// The speech engines the orchestrator can route a request to.
#[derive(Debug, Clone, Copy, PartialEq, Eq, Structural)]
pub enum EngineType {
    System,
    Piper,
    Cloud,
}

/// The remote voice providers of the cloud engine.
#[derive(Debug, Clone, Copy, PartialEq, Eq, Structural)]
pub enum CloudProvider {
    OpenAI,
    Azure,
    Google,
}

/// Playback state as observed by callers.
#[derive(Debug, Clone, Copy, PartialEq, Eq, Structural)]
pub enum PlaybackState {
    Idle,
    Synthesizing,
    Playing,
    Paused,
    Error,
}


/// The engine a lower-case name selects.
pub open spec fn engine_named(name: Seq<char>) -> Option<EngineType> {
    if name == "system"@ {
        Some(EngineType::System)
    } else if name == "piper"@ {
        Some(EngineType::Piper)
    } else if name == "cloud"@ {
        Some(EngineType::Cloud)
    } else {
        None
    }
}

impl EngineType {
    /// The engine a lower-case name ("system", "piper", "cloud") selects.
    pub fn from_name(name: &str) -> (r: Option<EngineType>)
        ensures
            r == engine_named(name@),
    {
        if text_eq(name, "system") {
            Some(EngineType::System)
        } else if text_eq(name, "piper") {
            Some(EngineType::Piper)
        } else if text_eq(name, "cloud") {
            Some(EngineType::Cloud)
        } else {
            None
        }
    }

    /// The engine's name as shown to users.
    pub fn label(&self) -> (r: &'static str)
        ensures
            r@ == match self {
                EngineType::System => "System"@,
                EngineType::Piper => "Piper"@,
                EngineType::Cloud => "Cloud"@,
            },
    {
        match self {
            EngineType::System => "System",
            EngineType::Piper => "Piper",
            EngineType::Cloud => "Cloud",
        }
    }
}

impl PlaybackState {
    /// The state's name as shown to users.
    pub fn label(&self) -> (r: &'static str)
        ensures
            r@ == match self {
                PlaybackState::Idle => "Idle"@,
                PlaybackState::Synthesizing => "Synthesizing"@,
                PlaybackState::Playing => "Playing"@,
                PlaybackState::Paused => "Paused"@,
                PlaybackState::Error => "Error"@,
            },
    {
        match self {
            PlaybackState::Idle => "Idle",
            PlaybackState::Synthesizing => "Synthesizing",
            PlaybackState::Playing => "Playing",
            PlaybackState::Paused => "Paused",
            PlaybackState::Error => "Error",
        }
    }
}

/// Canonical control levels (rate, pitch, volume) are held in thousandths:
/// this value is the nominal 1.0. Rate and pitch range nominally over
/// 500..=2000, volume over 0..=1000.
pub const LEVEL_ONE: u32 = 1000;

/// Voice metadata supplied by an engine.
#[derive(Debug, Clone, PartialEq)]
pub struct VoiceInfo {
    pub id: String,
    pub name: String,
    pub language: Option<String>,
}

/// The text of an optional string.
pub open spec fn opt_view(o: Option<String>) -> Option<Seq<char>> {
    match o {
        Some(s) => Some(s@),
        None => None,
    }
}

/// The texts of a sequence of strings.
pub open spec fn strings_view(v: Seq<String>) -> Seq<Seq<char>> {
    v.map_values(|s: String| s@)
}

/// Voice metadata as plain text: id, display name, language tag.
pub struct VoiceView {
    pub id: Seq<char>,
    pub name: Seq<char>,
    pub language: Option<Seq<char>>,
}

impl View for VoiceInfo {
    type V = VoiceView;

    open spec fn view(&self) -> VoiceView {
        VoiceView { id: self.id@, name: self.name@, language: opt_view(self.language) }
    }
}

/// The metadata of a list of voices.
pub open spec fn voices_view(v: Seq<VoiceInfo>) -> Seq<VoiceView> {
    v.map_values(|x: VoiceInfo| x@)
}

/// A synthesis request. Unset levels are taken from the configuration.
#[derive(Debug, Clone, PartialEq)]
pub struct TtsRequest {
    pub text: String,
    pub engine: Option<EngineType>,
    pub voice: Option<String>,
    /// Speaking rate in thousandths.
    pub rate: Option<u32>,
    /// Pitch in thousandths.
    pub pitch: Option<u32>,
    /// Volume in thousandths.
    pub volume: Option<u32>,
}

/// Synthesised audio: the encoded bytes and their description.
#[derive(Debug, PartialEq)]
pub struct TtsResult {
    pub audio_data: Vec<u8>,
    pub sample_rate: u32,
    pub channels: u16,
    /// "wav", "aiff", ...
    pub format: String,
}

/// Settings of the operating system's voice.
#[derive(Debug, Clone, PartialEq)]
pub struct SystemTtsConfig {
    pub voice: Option<String>,
}

/// Settings of the neural-voice subprocess.
#[derive(Debug, Clone, PartialEq)]
pub struct PiperTtsConfig {
    pub model_path: Option<String>,
    pub piper_binary: Option<String>,
}

/// Settings of the remote voice provider.
#[derive(Debug, Clone, PartialEq)]
pub struct CloudTtsConfig {
    pub provider: CloudProvider,
    pub api_key: Option<String>,
    pub voice: Option<String>,
    pub endpoint: Option<String>,
}

/// The whole configuration snapshot: per-engine settings, the active
/// engine and the default levels (in thousandths).
#[derive(Debug, Clone, PartialEq)]
pub struct TtsConfig {
    pub active_engine: EngineType,
    pub system: SystemTtsConfig,
    pub piper: PiperTtsConfig,
    pub cloud: CloudTtsConfig,
    pub default_rate: u32,
    pub default_pitch: u32,
    pub default_volume: u32,
}

impl Default for SystemTtsConfig {
    fn default() -> (r: Self)
        ensures
            r.voice is None,
    {
        SystemTtsConfig { voice: None }
    }
}

impl Default for PiperTtsConfig {
    fn default() -> (r: Self)
        ensures
            r.model_path is None,
            r.piper_binary is None,
    {
        PiperTtsConfig { model_path: None, piper_binary: None }
    }
}

impl Default for CloudTtsConfig {
    fn default() -> (r: Self)
        ensures
            r.provider == CloudProvider::OpenAI,
            r.api_key is None,
            r.voice is None,
            r.endpoint is None,
    {
        CloudTtsConfig { provider: CloudProvider::OpenAI, api_key: None, voice: None, endpoint: None }
    }
}

impl Default for TtsConfig {
    fn default() -> (r: Self)
        ensures
            r.active_engine == EngineType::System,
            r.system.voice is None,
            r.piper.model_path is None,
            r.piper.piper_binary is None,
            r.cloud.provider == CloudProvider::OpenAI,
            r.cloud.api_key is None,
            r.cloud.voice is None,
            r.cloud.endpoint is None,
            r.default_rate == LEVEL_ONE,
            r.default_pitch == LEVEL_ONE,
            r.default_volume == LEVEL_ONE,
    {
        TtsConfig {
            active_engine: EngineType::System,
            system: SystemTtsConfig { voice: None },
            piper: PiperTtsConfig { model_path: None, piper_binary: None },
            cloud: CloudTtsConfig { provider: CloudProvider::OpenAI, api_key: None, voice: None, endpoint: None },
            default_rate: LEVEL_ONE,
            default_pitch: LEVEL_ONE,
            default_volume: LEVEL_ONE,
        }
    }
}

/// A copy of an optional string.
pub fn copy_opt_string(o: &Option<String>) -> (r: Option<String>)
    ensures
        r == *o,
{
    match o {
        Some(s) => Some(s.clone()),
        None => None,
    }
}

impl TtsConfig {
    /// A field-for-field copy of the snapshot.
    pub fn snapshot(&self) -> (r: TtsConfig)
        ensures
            r == *self,
    {
        TtsConfig {
            active_engine: self.active_engine,
            system: SystemTtsConfig { voice: copy_opt_string(&self.system.voice) },
            piper: PiperTtsConfig {
                model_path: copy_opt_string(&self.piper.model_path),
                piper_binary: copy_opt_string(&self.piper.piper_binary),
            },
            cloud: CloudTtsConfig {
                provider: self.cloud.provider,
                api_key: copy_opt_string(&self.cloud.api_key),
                voice: copy_opt_string(&self.cloud.voice),
                endpoint: copy_opt_string(&self.cloud.endpoint),
            },
            default_rate: self.default_rate,
            default_pitch: self.default_pitch,
            default_volume: self.default_volume,
        }
    }
}

/// Failures reported by the library, each with a human-readable detail.
#[derive(Debug, Clone, PartialEq)]
pub enum TtsError {
    /// No usable backend for the requested engine.
    EngineUnavailable(String),
    /// A backend ran and failed; carries the provider's detail.
    SynthesisFailure(String),
    /// The audio output could not be opened, or there is none.
    NoAudioDevice(String),
    /// The audio worker is gone.
    PlayerUnresponsive(String),
    /// The audio worker reported a failure for a command.
    PlaybackFailure(String),
    /// The companion process could not be started.
    ProcessSpawnFailure(String),
    /// The companion process did not become healthy.
    HealthCheckTimeout(String),
    /// The configuration location cannot be determined.
    ConfigUnavailable(String),
}

impl TtsError {
    /// The detail the error carries.
    pub open spec fn text(&self) -> Seq<char> {
        match self {
            TtsError::EngineUnavailable(m) => m@,
            TtsError::SynthesisFailure(m) => m@,
            TtsError::NoAudioDevice(m) => m@,
            TtsError::PlayerUnresponsive(m) => m@,
            TtsError::PlaybackFailure(m) => m@,
            TtsError::ProcessSpawnFailure(m) => m@,
            TtsError::HealthCheckTimeout(m) => m@,
            TtsError::ConfigUnavailable(m) => m@,
        }
    }

    /// The human-readable message of the error.
    pub fn message(&self) -> (r: String)
        ensures
            r@ == self.text(),
    {
        match self {
            TtsError::EngineUnavailable(m) => m.clone(),
            TtsError::SynthesisFailure(m) => m.clone(),
            TtsError::NoAudioDevice(m) => m.clone(),
            TtsError::PlayerUnresponsive(m) => m.clone(),
            TtsError::PlaybackFailure(m) => m.clone(),
            TtsError::ProcessSpawnFailure(m) => m.clone(),
            TtsError::HealthCheckTimeout(m) => m.clone(),
            TtsError::ConfigUnavailable(m) => m.clone(),
        }
    }
}

} // verus!
