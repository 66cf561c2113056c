use vstd::prelude::*;

use crate::engine::{push_arg, push_voice, CommandOutcome, CommandSpec, CommandView};
use crate::text::{lossy_text, push_str, string_of, utf8_lossy};
use crate::types::{copy_opt_string, opt_view, strings_view, voices_view, TtsError, TtsRequest, TtsResult, VoiceInfo, VoiceView};

verus! {

/// What `std::path::Path::file_stem` gives for a path, as text: the final
/// component without its last extension.
pub uninterp spec fn path_file_stem(p: Seq<char>) -> Option<Seq<char>>;

/// Relies on `std::path::Path::file_stem` (and a lossy conversion of the
/// component to text): the result depends on the path alone.
#[verifier::external_body]
fn file_stem_of(p: &str) -> (r: Option<String>)
    ensures
        opt_view(r) == path_file_stem(p@),
{
    std::path::Path::new(p).file_stem().map(|s| s.to_string_lossy().into_owned())
}

/// The neural-voice engine: a `piper` executable fed the text on standard
/// input, with a voice model file.
pub struct PiperTtsEngine {
    piper_binary: String,
    model_path: Option<String>,
}

/// The configuration of the neural-voice engine as text.
pub struct PiperView {
    pub binary: Seq<char>,
    pub model: Option<Seq<char>>,
}

impl View for PiperTtsEngine {
    type V = PiperView;

    closed spec fn view(&self) -> PiperView {
        PiperView { binary: self.piper_binary@, model: opt_view(self.model_path) }
    }
}

/// The subprocess that synthesises `text` with a binary and a model: WAV on
/// standard output.
pub open spec fn piper_command(binary: Seq<char>, model: Seq<char>, text: Seq<char>) -> CommandView {
    CommandView {
        program: binary,
        args: seq!["--model"@, model, "--output_file"@, "-"@],
        stdin_text: Some(text),
        audio_file: None,
    }
}

/// The voice a configured model stands for: its path as id, its file stem
/// (or "piper-model") as name.
pub open spec fn piper_voice(model: Seq<char>, stem: Option<Seq<char>>) -> VoiceView {
    VoiceView {
        id: model,
        name: match stem {
            Some(s) => s,
            None => "piper-model"@,
        },
        language: None,
    }
}

impl PiperTtsEngine {
    /// An engine with the given binary (default `piper`, looked up on the
    /// search path) and model.
    pub fn new(piper_binary: Option<String>, model_path: Option<String>) -> (r: Self)
        ensures
            r@.binary == match piper_binary {
                Some(b) => b@,
                None => "piper"@,
            },
            r@.model == opt_view(model_path),
    {
        let piper_binary = match piper_binary {
            Some(b) => b,
            None => string_of("piper"),
        };
        PiperTtsEngine { piper_binary, model_path }
    }

    /// Sets the voice model.
    pub fn set_model(&mut self, path: &str)
        ensures
            final(self)@.model == Some(path@),
            final(self)@.binary == old(self)@.binary,
    {
        self.model_path = Some(string_of(path));
    }

    /// Sets the executable.
    pub fn set_binary(&mut self, path: &str)
        ensures
            final(self)@.binary == path@,
            final(self)@.model == old(self)@.model,
    {
        self.piper_binary = string_of(path);
    }

    /// The configured model, if any.
    pub fn model_path(&self) -> (r: Option<&String>)
        ensures
            match r {
                Some(m) => self@.model == Some(m@),
                None => self@.model is None,
            },
    {
        match &self.model_path {
            Some(m) => Some(m),
            None => None,
        }
    }

    /// The configured executable.
    pub fn binary_path(&self) -> (r: &String)
        ensures
            r@ == self@.binary,
    {
        &self.piper_binary
    }

    /// Display label.
    pub fn name(&self) -> (r: &'static str)
        ensures
            r@ == "Piper TTS"@,
    {
        "Piper TTS"
    }

    /// The probe whose successful exit shows the engine is usable:
    /// the executable run with `--help`.
    pub fn availability_command(&self) -> (r: CommandSpec)
        ensures
            r@ == (CommandView { program: self@.binary, args: seq!["--help"@], stdin_text: None, audio_file: None }),
    {
        let mut args: Vec<String> = Vec::new();
        push_arg(&mut args, string_of("--help"));
        assert(strings_view(args@) =~= seq!["--help"@]);
        CommandSpec { program: self.piper_binary.clone(), args, stdin_text: None, audio_file: None }
    }

    /// The voices, given the file stem of the model: the configured model
    /// alone, or none.
    pub fn voices_for_stem(&self, stem: Option<String>) -> (r: Vec<VoiceInfo>)
        ensures
            voices_view(r@) == match self@.model {
                Some(m) => seq![piper_voice(m, opt_view(stem))],
                None => seq![],
            },
    {
        let mut voices: Vec<VoiceInfo> = Vec::new();
        match &self.model_path {
            Some(m) => {
                let name = match stem {
                    Some(s) => s,
                    None => string_of("piper-model"),
                };
                push_voice(&mut voices, VoiceInfo { id: m.clone(), name, language: None });
            },
            None => {},
        }
        assert(voices_view(voices@) =~= match self@.model {
            Some(m) => seq![piper_voice(m, opt_view(stem))],
            None => seq![],
        });
        voices
    }

    /// The voices: the configured model alone, named after its file stem.
    pub fn list_voices(&self) -> (r: Vec<VoiceInfo>)
        ensures
            voices_view(r@) == match self@.model {
                Some(m) => seq![piper_voice(m, path_file_stem(m))],
                None => seq![],
            },
    {
        let stem = match &self.model_path {
            Some(m) => file_stem_of(m.as_str()),
            None => None,
        };
        self.voices_for_stem(stem)
    }

    /// The subprocess that synthesises `request`; `model_exists` tells
    /// whether the model file is present. Fails without a model, or when the
    /// model file is missing.
    pub fn synthesize_command(&self, request: &TtsRequest, model_exists: bool) -> (r: Result<CommandSpec, TtsError>)
        ensures
            self@.model is None ==> (r matches Err(e) && e is EngineUnavailable
                && e.text() == "No Piper model configured"@),
            self@.model is Some && !model_exists ==> (r matches Err(e) && e is EngineUnavailable
                && e.text() == "Piper model not found: "@ + self@.model.unwrap()),
            self@.model is Some && model_exists ==> (r matches Ok(c)
                && c@ == piper_command(self@.binary, self@.model.unwrap(), request.text@)),
    {
        match &self.model_path {
            None => Err(TtsError::EngineUnavailable(string_of("No Piper model configured"))),
            Some(m) => {
                if !model_exists {
                    let mut msg = string_of("Piper model not found: ");
                    push_str(&mut msg, m.as_str());
                    Err(TtsError::EngineUnavailable(msg))
                } else {
                    let mut args: Vec<String> = Vec::new();
                    push_arg(&mut args, string_of("--model"));
                    push_arg(&mut args, m.clone());
                    push_arg(&mut args, string_of("--output_file"));
                    push_arg(&mut args, string_of("-"));
                    assert(strings_view(args@) =~= piper_command(self@.binary, m@, request.text@).args);
                    Ok(CommandSpec {
                        program: self.piper_binary.clone(),
                        args,
                        stdin_text: Some(request.text.clone()),
                        audio_file: None,
                    })
                }
            },
        }
    }

    /// The result of a finished synthesis run: 16-bit WAV at 22050 Hz mono
    /// on success, the error stream otherwise.
    pub fn finish_synthesis(&self, outcome: CommandOutcome) -> (r: Result<TtsResult, TtsError>)
        ensures
            outcome.success ==> (r matches Ok(t) && t.audio_data@ == outcome.audio@ && t.sample_rate == 22050
                && t.channels == 1 && t.format@ == "wav"@),
            !outcome.success ==> (r matches Err(e) && e is SynthesisFailure
                && e.text() == "Piper TTS failed: "@ + utf8_lossy(outcome.errors@)),
    {
        if outcome.success {
            Ok(TtsResult { audio_data: outcome.audio, sample_rate: 22050, channels: 1, format: string_of("wav") })
        } else {
            let mut msg = string_of("Piper TTS failed: ");
            let e = lossy_text(outcome.errors.as_slice());
            push_str(&mut msg, e.as_str());
            Err(TtsError::SynthesisFailure(msg))
        }
    }
}

} // verus!
