use vstd::prelude::*;

use crate::cloud_tts::{provider_voices, api_error, cloud_http, google_audio_error, response_audio, CloudTtsEngine, CloudView};
use crate::engine::{is_success, CommandSpec, SynthesisOutcome, SynthesisPlan};
use crate::piper_tts::{path_file_stem, piper_command, piper_voice, PiperTtsEngine, PiperView};
use crate::system_tts::{listing_command, system_command, system_failure, system_format, SystemBackend, SystemTtsEngine};
use crate::text::{string_of, utf8_lossy};
use crate::types::{
    copy_opt_string, opt_view, voices_view, EngineType, PlaybackState, TtsConfig, TtsError, TtsRequest, TtsResult,
    VoiceInfo, CloudProvider,
};

verus! {

/// Facts about the host that planning a synthesis needs: whether the
/// configured neural-voice model file exists, and a file the native voices
/// that write to a file may use.
#[derive(Debug, Clone, PartialEq)]
pub struct SynthesisHost {
    pub piper_model_exists: bool,
    pub audio_file: String,
}

/// A synthesis under way: the engine, the fully resolved request and what
/// the engine needs done.
#[derive(Debug, Clone, PartialEq)]
pub struct SpeakJob {
    pub engine: EngineType,
    pub request: TtsRequest,
    pub plan: SynthesisPlan,
}

/// How the voices of an engine are obtained: at once, or by running a
/// listing program whose output `parse_system_voices` reads.
#[derive(Debug, Clone, PartialEq)]
pub enum VoiceQuery {
    Ready(Vec<VoiceInfo>),
    Run(CommandSpec),
}

/// The orchestrator: engines, configuration snapshot and playback state.
/// Callers hold it behind one lock, which orders every transition.
pub struct TtsManager {
    system_engine: SystemTtsEngine,
    piper_engine: PiperTtsEngine,
    cloud_engine: Option<CloudTtsEngine>,
    has_player: bool,
    config: TtsConfig,
    state: PlaybackState,
}

/// The orchestrator as plain values.
pub struct ManagerView {
    pub system: SystemBackend,
    pub piper: PiperView,
    pub cloud: Option<CloudView>,
    pub has_player: bool,
    pub config: TtsConfig,
    pub state: PlaybackState,
}

impl View for TtsManager {
    type V = ManagerView;

    closed spec fn view(&self) -> ManagerView {
        ManagerView {
            system: self.system_engine.backend_of(),
            piper: self.piper_engine@,
            cloud: match self.cloud_engine {
                Some(c) => Some(c@),
                None => None,
            },
            has_player: self.has_player,
            config: self.config,
            state: self.state,
        }
    }
}

/// The engine a request goes to: its own choice, else the configured one.
pub open spec fn effective_engine(config: TtsConfig, request: TtsRequest) -> EngineType {
    match request.engine {
        Some(e) => e,
        None => config.active_engine,
    }
}

/// A level of the request, else the configured default.
pub open spec fn level_or(l: Option<u32>, default: u32) -> u32 {
    match l {
        Some(v) => v,
        None => default,
    }
}

/// The request with every unset level filled from the configuration.
pub open spec fn resolved(config: TtsConfig, request: TtsRequest) -> TtsRequest {
    TtsRequest {
        text: request.text,
        engine: request.engine,
        voice: request.voice,
        rate: Some(level_or(request.rate, config.default_rate)),
        pitch: Some(level_or(request.pitch, config.default_pitch)),
        volume: Some(level_or(request.volume, config.default_volume)),
    }
}

/// The cloud engine a configuration yields: one exactly when a non-empty
/// credential is set.
pub open spec fn configured_cloud(config: TtsConfig) -> Option<CloudView> {
    match config.cloud.api_key {
        Some(k) => if k@.len() > 0 {
            Some(
                CloudView {
                    provider: config.cloud.provider,
                    api_key: k@,
                    voice: match config.cloud.voice {
                        Some(v) => v@,
                        None => crate::cloud_tts::default_voice(config.cloud.provider),
                    },
                    endpoint: opt_view(config.cloud.endpoint),
                },
            )
        } else {
            None
        },
        None => None,
    }
}

/// State once `speak` has planned (or failed to plan) the synthesis.
pub open spec fn speak_started(planned: bool) -> PlaybackState {
    if planned {
        PlaybackState::Synthesizing
    } else {
        PlaybackState::Error
    }
}

/// State once the synthesis has finished: playing when audio came back and
/// there is a player, an error otherwise.
pub open spec fn speak_finished(has_player: bool, synthesized: bool) -> PlaybackState {
    if synthesized && has_player {
        PlaybackState::Playing
    } else {
        PlaybackState::Error
    }
}

/// State after a playback control: unchanged when the player failed, the
/// target state otherwise.
pub open spec fn controlled(s: PlaybackState, player_ok: bool, target: PlaybackState) -> PlaybackState {
    if player_ok {
        target
    } else {
        s
    }
}

/// The engines usable now, in order System, Piper, Cloud.
pub open spec fn available_engines(m: ManagerView, piper_available: bool) -> Seq<EngineType> {
    (if m.system != SystemBackend::Missing {
        seq![EngineType::System]
    } else {
        seq![]
    }) + (if piper_available {
        seq![EngineType::Piper]
    } else {
        seq![]
    }) + (if m.cloud matches Some(c) && c.api_key.len() > 0 {
        seq![EngineType::Cloud]
    } else {
        seq![]
    })
}

/// Whether the engine can plan a synthesis.
pub open spec fn plannable(m: ManagerView, engine: EngineType, host_model_exists: bool) -> bool {
    match engine {
        EngineType::System => m.system != SystemBackend::Missing,
        EngineType::Piper => m.piper.model is Some && host_model_exists,
        EngineType::Cloud => m.cloud matches Some(c) && !(c.provider == CloudProvider::Azure && c.endpoint is None),
    }
}

/// The request with every unset level filled from the configuration.
pub fn resolve_request(config: &TtsConfig, request: TtsRequest) -> (r: TtsRequest)
    ensures
        r == resolved(*config, request),
{
    let rate = match request.rate {
        Some(v) => v,
        None => config.default_rate,
    };
    let pitch = match request.pitch {
        Some(v) => v,
        None => config.default_pitch,
    };
    let volume = match request.volume {
        Some(v) => v,
        None => config.default_volume,
    };
    TtsRequest {
        text: request.text,
        engine: request.engine,
        voice: request.voice,
        rate: Some(rate),
        pitch: Some(pitch),
        volume: Some(volume),
    }
}

/// Each level a request leaves unset takes the configuration's default,
/// from the snapshot in force when `speak` resolves the request.
pub proof fn lemma_unset_levels_use_defaults(config: TtsConfig, request: TtsRequest)
    ensures
        request.rate is None ==> resolved(config, request).rate == Some(config.default_rate),
        request.pitch is None ==> resolved(config, request).pitch == Some(config.default_pitch),
        request.volume is None ==> resolved(config, request).volume == Some(config.default_volume),
{
}

/// Each level a request sets is used exactly, whatever configuration is in
/// force: replacing the configuration does not change it.
pub proof fn lemma_set_levels_override(before: TtsConfig, after: TtsConfig, request: TtsRequest)
    ensures
        request.rate is Some ==> resolved(before, request).rate == request.rate && resolved(after, request).rate
            == request.rate,
        request.pitch is Some ==> resolved(before, request).pitch == request.pitch && resolved(after, request).pitch
            == request.pitch,
        request.volume is Some ==> resolved(before, request).volume == request.volume && resolved(after,
            request).volume == request.volume,
{
}

/// Stopping while Idle leaves the state Idle, whatever the player replies.
pub proof fn lemma_stop_while_idle(player_ok: bool)
    ensures
        controlled(PlaybackState::Idle, player_ok, PlaybackState::Idle) == PlaybackState::Idle,
{
}

/// A pause followed by a resume, both accepted by the player, ends in
/// Playing from any state; neither step plans a synthesis.
pub proof fn lemma_pause_then_resume(s: PlaybackState)
    ensures
        controlled(controlled(s, true, PlaybackState::Paused), true, PlaybackState::Playing)
            == PlaybackState::Playing,
{
}

/// A failed synthesis leaves Error; the next speak that plans and
/// synthesises successfully, with a player present, ends in Playing.
pub proof fn lemma_failure_cleared_by_next_speak(has_player: bool)
    requires
        has_player,
    ensures
        speak_started(false) == PlaybackState::Error,
        speak_finished(has_player, false) == PlaybackState::Error,
        speak_started(true) == PlaybackState::Synthesizing,
        speak_finished(has_player, true) == PlaybackState::Playing,
{
}

impl TtsManager {
    /// An orchestrator for a configuration, with the native backend found
    /// on the host and whether an audio player could be opened. Starts Idle.
    pub fn new(config: TtsConfig, system_backend: SystemBackend, has_player: bool) -> (r: Self)
        ensures
            r@.config == config,
            r@.state == PlaybackState::Idle,
            r@.has_player == has_player,
            r@.system == system_backend,
            r@.piper.binary == match config.piper.piper_binary {
                Some(b) => b@,
                None => "piper"@,
            },
            r@.piper.model == opt_view(config.piper.model_path),
            r@.cloud == configured_cloud(config),
    {
        let system_engine = SystemTtsEngine::new(system_backend);
        let piper_engine = PiperTtsEngine::new(
            copy_opt_string(&config.piper.piper_binary),
            copy_opt_string(&config.piper.model_path),
        );
        let cloud_engine = match &config.cloud.api_key {
            Some(k) => if !k.as_str().is_empty() {
                Some(
                    CloudTtsEngine::new(
                        config.cloud.provider,
                        k.clone(),
                        copy_opt_string(&config.cloud.voice),
                        copy_opt_string(&config.cloud.endpoint),
                    ),
                )
            } else {
                None
            },
            None => None,
        };
        TtsManager { system_engine, piper_engine, cloud_engine, has_player, config, state: PlaybackState::Idle }
    }

    /// The native-voice engine.
    pub fn system_engine(&self) -> (r: &SystemTtsEngine)
        ensures
            r.backend_of() == self@.system,
    {
        &self.system_engine
    }

    /// The neural-voice engine.
    pub fn piper_engine(&self) -> (r: &PiperTtsEngine)
        ensures
            r@ == self@.piper,
    {
        &self.piper_engine
    }

    /// The remote engine, when a credential is configured.
    pub fn cloud_engine(&self) -> (r: Option<&CloudTtsEngine>)
        ensures
            match r {
                Some(c) => self@.cloud == Some(c@),
                None => self@.cloud is None,
            },
    {
        match &self.cloud_engine {
            Some(c) => Some(c),
            None => None,
        }
    }

    /// Starts speaking `request`: resolves the engine and the levels from
    /// the configuration, marks Synthesizing and returns what the engine
    /// needs done. When the engine cannot plan it, marks Error and returns
    /// the engine's failure.
    pub fn speak(&mut self, request: TtsRequest, host: &SynthesisHost) -> (r: Result<SpeakJob, TtsError>)
        ensures
            final(self)@.config == old(self)@.config,
            final(self)@.has_player == old(self)@.has_player,
            final(self)@.system == old(self)@.system,
            final(self)@.piper == old(self)@.piper,
            final(self)@.cloud == old(self)@.cloud,
            r is Ok == plannable(old(self)@, effective_engine(old(self)@.config, request), host.piper_model_exists),
            final(self)@.state == speak_started(r is Ok),
            r matches Ok(job) ==> job.engine == effective_engine(old(self)@.config, request) && job.request
                == resolved(old(self)@.config, request),
            r matches Ok(job) ==> (job.engine == EngineType::System ==> (job.plan matches SynthesisPlan::Command(c)
                && c@ == system_command(old(self)@.system, job.request, host.audio_file@))),
            r matches Ok(job) ==> (job.engine == EngineType::Piper ==> (job.plan matches SynthesisPlan::Command(c)
                && c@ == piper_command(old(self)@.piper.binary, old(self)@.piper.model.unwrap(), job.request.text@))),
            r matches Ok(job) ==> (job.engine == EngineType::Cloud ==> (job.plan matches SynthesisPlan::Http(h)
                && h@ == cloud_http(old(self)@.cloud.unwrap(), job.request))),
            r is Err && effective_engine(old(self)@.config, request) == EngineType::Cloud && old(self)@.cloud is None
                ==> (r matches Err(e) && e is EngineUnavailable && e.text() == "Cloud TTS not configured"@),
            r is Err && effective_engine(old(self)@.config, request) == EngineType::Cloud && old(self)@.cloud is Some
                ==> (r matches Err(e) && e is EngineUnavailable && e.text()
                == "Azure TTS requires an endpoint (e.g. https://eastus.tts.speech.microsoft.com/cognitiveservices/v1)"@),
            r is Err && effective_engine(old(self)@.config, request) == EngineType::System ==> (r matches Err(e)
                && e is EngineUnavailable && e.text() == "No system TTS backend available"@),
            r is Err && effective_engine(old(self)@.config, request) == EngineType::Piper && old(self)@.piper.model is None
                ==> (r matches Err(e) && e is EngineUnavailable && e.text() == "No Piper model configured"@),
            r is Err && effective_engine(old(self)@.config, request) == EngineType::Piper && old(self)@.piper.model is Some
                ==> (r matches Err(e) && e is EngineUnavailable && e.text() == "Piper model not found: "@
                + old(self)@.piper.model.unwrap()),
    {
        let engine = match request.engine {
            Some(e) => e,
            None => self.config.active_engine,
        };
        let req = resolve_request(&self.config, request);
        self.state = PlaybackState::Synthesizing;
        let planned: Result<SynthesisPlan, TtsError> = match engine {
            EngineType::System => match self.system_engine.synthesize_command(&req, host.audio_file.as_str()) {
                Ok(c) => Ok(SynthesisPlan::Command(c)),
                Err(e) => Err(e),
            },
            EngineType::Piper => match self.piper_engine.synthesize_command(&req, host.piper_model_exists) {
                Ok(c) => Ok(SynthesisPlan::Command(c)),
                Err(e) => Err(e),
            },
            EngineType::Cloud => match &self.cloud_engine {
                Some(c) => match c.synthesize_request(&req) {
                    Ok(h) => Ok(SynthesisPlan::Http(h)),
                    Err(e) => Err(e),
                },
                None => Err(TtsError::EngineUnavailable(string_of("Cloud TTS not configured"))),
            },
        };
        match planned {
            Ok(plan) => Ok(SpeakJob { engine, request: req, plan }),
            Err(e) => {
                self.state = PlaybackState::Error;
                Err(e)
            },
        }
    }

    /// The audio, or the failure, that the engine of a job makes of what
    /// carrying out its plan produced. An I/O failure, or an outcome of the
    /// wrong kind for the engine, is a synthesis failure.
    pub fn synthesis_result(&self, engine: EngineType, outcome: SynthesisOutcome) -> (r: Result<TtsResult, TtsError>)
        ensures
            outcome matches SynthesisOutcome::Failed(d) ==> (r matches Err(e) && e is SynthesisFailure
                && e.text() == d@),
            outcome is Command && engine == EngineType::Cloud ==> (r matches Err(e) && e is SynthesisFailure),
            outcome is Http && engine != EngineType::Cloud ==> (r matches Err(e) && e is SynthesisFailure),
            outcome is Http && engine == EngineType::Cloud && self@.cloud is None ==> (r matches Err(e)
                && e is EngineUnavailable && e.text() == "Cloud TTS not configured"@),
            outcome is Command && engine == EngineType::System && self@.system == SystemBackend::Missing ==> (
            r matches Err(e) && e is EngineUnavailable),
            outcome is Command && engine == EngineType::System && self@.system != SystemBackend::Missing ==> (
            if outcome->Command_0.success {
                r matches Ok(t) && t.audio_data@ == outcome->Command_0.audio@ && t.sample_rate == 22050
                    && t.channels == 1 && t.format@ == system_format(self@.system)
            } else {
                r matches Err(e) && e is SynthesisFailure && e.text() == system_failure(
                    self@.system,
                    outcome->Command_0.errors@,
                )
            }),
            outcome is Command && engine == EngineType::Piper ==> (if outcome->Command_0.success {
                r matches Ok(t) && t.audio_data@ == outcome->Command_0.audio@ && t.sample_rate == 22050
                    && t.channels == 1 && t.format@ == "wav"@
            } else {
                r matches Err(e) && e is SynthesisFailure && e.text() == "Piper TTS failed: "@ + utf8_lossy(
                    outcome->Command_0.errors@,
                )
            }),
            outcome is Http && engine == EngineType::Cloud && self@.cloud is Some ==> ({
                let c = self@.cloud.unwrap();
                let resp = outcome->Http_0;
                if !is_success(resp.status) {
                    r matches Err(e) && e is SynthesisFailure && e.text() == api_error(
                        c.provider,
                        resp.status_line@,
                        resp.body@,
                    )
                } else if response_audio(c.provider, resp.body@) is Some {
                    r matches Ok(t) && t.audio_data@ == response_audio(c.provider, resp.body@).unwrap()
                        && t.sample_rate == 24000 && t.channels == 1 && t.format@ == "wav"@
                } else {
                    r matches Err(e) && e is SynthesisFailure && e.text() == google_audio_error(resp.body@)
                }
            }),
    {
        match outcome {
            SynthesisOutcome::Failed(d) => Err(TtsError::SynthesisFailure(d)),
            SynthesisOutcome::Command(o) => match engine {
                EngineType::System => self.system_engine.finish_synthesis(o),
                EngineType::Piper => self.piper_engine.finish_synthesis(o),
                EngineType::Cloud => Err(TtsError::SynthesisFailure(string_of("Cloud TTS answered with a subprocess outcome"))),
            },
            SynthesisOutcome::Http(resp) => match engine {
                EngineType::Cloud => match &self.cloud_engine {
                    Some(c) => c.finish_synthesis(resp),
                    None => Err(TtsError::EngineUnavailable(string_of("Cloud TTS not configured"))),
                },
                _ => Err(TtsError::SynthesisFailure(string_of("a local engine answered with an HTTP outcome"))),
            },
        }
    }

    /// Ends a speak: with audio and a player, marks Playing and hands the
    /// audio back for playback; without a player, or on a failed synthesis,
    /// marks Error and returns the failure.
    pub fn finish_speak(&mut self, result: Result<TtsResult, TtsError>) -> (r: Result<TtsResult, TtsError>)
        ensures
            final(self)@.config == old(self)@.config,
            final(self)@.has_player == old(self)@.has_player,
            final(self)@.system == old(self)@.system,
            final(self)@.piper == old(self)@.piper,
            final(self)@.cloud == old(self)@.cloud,
            final(self)@.state == speak_finished(old(self)@.has_player, result is Ok),
            result is Ok && old(self)@.has_player ==> r == result,
            result is Ok && !old(self)@.has_player ==> (r matches Err(e) && e is NoAudioDevice
                && e.text() == "No audio output device available"@),
            result is Err ==> r == result,
    {
        match result {
            Ok(t) => {
                if self.has_player {
                    self.state = PlaybackState::Playing;
                    Ok(t)
                } else {
                    self.state = PlaybackState::Error;
                    Err(TtsError::NoAudioDevice(string_of("No audio output device available")))
                }
            },
            Err(e) => {
                self.state = PlaybackState::Error;
                Err(e)
            },
        }
    }

    /// Stops playback, given the player's reply (`Ok` when there is no
    /// player): Idle, unless the player failed, whose error is returned.
    pub fn stop(&mut self, player_reply: Result<(), TtsError>) -> (r: Result<(), TtsError>)
        ensures
            final(self)@.config == old(self)@.config,
            final(self)@.has_player == old(self)@.has_player,
            final(self)@.system == old(self)@.system,
            final(self)@.piper == old(self)@.piper,
            final(self)@.cloud == old(self)@.cloud,
            final(self)@.state == controlled(old(self)@.state, player_reply is Ok, PlaybackState::Idle),
            r == player_reply,
    {
        if player_reply.is_ok() {
            self.state = PlaybackState::Idle;
        }
        player_reply
    }

    /// Pauses playback, given the player's reply (`Ok` when there is no
    /// player): Paused, unless the player failed.
    pub fn pause(&mut self, player_reply: Result<(), TtsError>) -> (r: Result<(), TtsError>)
        ensures
            final(self)@.config == old(self)@.config,
            final(self)@.has_player == old(self)@.has_player,
            final(self)@.system == old(self)@.system,
            final(self)@.piper == old(self)@.piper,
            final(self)@.cloud == old(self)@.cloud,
            final(self)@.state == controlled(old(self)@.state, player_reply is Ok, PlaybackState::Paused),
            r == player_reply,
    {
        if player_reply.is_ok() {
            self.state = PlaybackState::Paused;
        }
        player_reply
    }

    /// Resumes playback, given the player's reply (`Ok` when there is no
    /// player): Playing, unless the player failed. Nothing is synthesised.
    pub fn resume(&mut self, player_reply: Result<(), TtsError>) -> (r: Result<(), TtsError>)
        ensures
            final(self)@.config == old(self)@.config,
            final(self)@.has_player == old(self)@.has_player,
            final(self)@.system == old(self)@.system,
            final(self)@.piper == old(self)@.piper,
            final(self)@.cloud == old(self)@.cloud,
            final(self)@.state == controlled(old(self)@.state, player_reply is Ok, PlaybackState::Playing),
            r == player_reply,
    {
        if player_reply.is_ok() {
            self.state = PlaybackState::Playing;
        }
        player_reply
    }

    /// The playback state.
    pub fn get_state(&self) -> (r: PlaybackState)
        ensures
            r == self@.state,
    {
        self.state
    }

    /// Whether an audio player is present.
    pub fn has_player(&self) -> (r: bool)
        ensures
            r == self@.has_player,
    {
        self.has_player
    }

    /// How to obtain the voices of an engine. Without a backend or a cloud
    /// credential the list is empty.
    pub fn list_voices(&self, engine_type: &EngineType) -> (r: VoiceQuery)
        ensures
            *engine_type == EngineType::System && self@.system != SystemBackend::Missing ==> (r matches VoiceQuery::Run(c)
                && c@ == listing_command(self@.system)),
            *engine_type == EngineType::System && self@.system == SystemBackend::Missing ==> (r matches VoiceQuery::Ready(v)
                && v@.len() == 0),
            *engine_type == EngineType::Piper ==> (r matches VoiceQuery::Ready(v) && voices_view(v@) == match self@.piper.model {
                Some(m) => seq![piper_voice(m, path_file_stem(m))],
                None => seq![],
            }),
            *engine_type == EngineType::Cloud && self@.cloud is None ==> (r matches VoiceQuery::Ready(v) && v@.len() == 0),
            *engine_type == EngineType::Cloud && self@.cloud is Some ==> (r matches VoiceQuery::Ready(v)
                && voices_view(v@) == provider_voices(self@.cloud.unwrap().provider)),
    {
        match engine_type {
            EngineType::System => match self.system_engine.voices_command() {
                Some(c) => VoiceQuery::Run(c),
                None => VoiceQuery::Ready(Vec::new()),
            },
            EngineType::Piper => VoiceQuery::Ready(self.piper_engine.list_voices()),
            EngineType::Cloud => match &self.cloud_engine {
                Some(c) => VoiceQuery::Ready(c.list_voices()),
                None => VoiceQuery::Ready(Vec::new()),
            },
        }
    }

    /// The voices listed by the native backend's listing program.
    pub fn parse_system_voices(&self, listing: &str) -> (r: Vec<VoiceInfo>)
        ensures
            voices_view(r@) == crate::system_tts::system_voices(self@.system, listing@),
    {
        self.system_engine.parse_voices(listing)
    }

    /// The engines usable now, given whether the neural-voice executable
    /// answered its probe.
    pub fn get_available_engines(&self, piper_available: bool) -> (r: Vec<EngineType>)
        ensures
            r@ == available_engines(self@, piper_available),
    {
        let mut engines: Vec<EngineType> = Vec::new();
        if self.system_engine.is_available() {
            engines.push(EngineType::System);
        }
        if piper_available {
            engines.push(EngineType::Piper);
        }
        match &self.cloud_engine {
            Some(c) => if c.is_available() {
                engines.push(EngineType::Cloud);
            },
            None => {},
        }
        assert(engines@ =~= available_engines(self@, piper_available));
        engines
    }

    /// Replaces the configuration snapshot as a whole.
    pub fn update_config(&mut self, new_config: TtsConfig)
        ensures
            final(self)@.config == new_config,
            final(self)@.state == old(self)@.state,
            final(self)@.has_player == old(self)@.has_player,
            final(self)@.system == old(self)@.system,
            final(self)@.piper == old(self)@.piper,
            final(self)@.cloud == old(self)@.cloud,
    {
        self.config = new_config;
    }

    /// A copy of the configuration snapshot.
    pub fn get_config(&self) -> (r: TtsConfig)
        ensures
            r == self@.config,
    {
        self.config.snapshot()
    }
}

} // verus!
