use vstd::prelude::*;

use crate::engine::{push_arg, push_voice, CommandOutcome, CommandSpec, CommandView};
use crate::text::{
    decimal, has_char, lines_of, push_char, push_decimal, push_signed, push_str, signed_decimal,
    split_at_bar, split_bar, string_of, text_lines, text_words, utf8_lossy, words_of, chars_of,
    lossy_text,
};
use crate::types::{
    opt_view, strings_view, voices_view, TtsError, TtsRequest, TtsResult, VoiceInfo, VoiceView,
    LEVEL_ONE,
};

verus! {

/// The operating system the program runs on.
#[derive(Debug, Clone, Copy, PartialEq, Eq, Structural)]
pub enum HostPlatform {
    Linux,
    MacOs,
    Windows,
    Other,
}

/// The native speech program found on the host.
#[derive(Debug, Clone, Copy, PartialEq, Eq, Structural)]
pub enum SystemBackend {
    EspeakNg,
    Espeak,
    Say,
    Sapi,
    Missing,
}

/// The operating system's own voice, driven through a native program.
pub struct SystemTtsEngine {
    backend: SystemBackend,
}

/// The level in effect: the one given, else the nominal 1.0.
pub open spec fn level_or_one(l: Option<u32>) -> nat {
    match l {
        Some(v) => v as nat,
        None => LEVEL_ONE as nat,
    }
}

/// Words per minute for a rate in thousandths: 175 at the nominal rate.
pub open spec fn words_per_minute(rate: nat) -> nat {
    175 * rate / 1000
}

/// SAPI rate step (-10..10 nominally) for a rate in thousandths: one step
/// per tenth, truncated toward zero, 0 at the nominal rate.
pub open spec fn sapi_rate(rate: int) -> int {
    if rate >= 1000 {
        (rate - 1000) / 100
    } else {
        -((1000 - rate) / 100)
    }
}

/// A text as it stands inside a double-quoted PowerShell string: each '"'
/// preceded by a backtick.
pub open spec fn ps_escaped(s: Seq<char>) -> Seq<char>
    decreases s.len(),
{
    if s.len() == 0 {
        seq![]
    } else {
        ps_escaped(s.drop_last()) + (if s.last() == '"' {
            seq!['`', '"']
        } else {
            seq![s.last()]
        })
    }
}

/// The `-v voice` arguments, when a voice is chosen.
pub open spec fn voice_args(voice: Option<Seq<char>>) -> Seq<Seq<char>> {
    match voice {
        Some(v) => seq!["-v"@, v],
        None => seq![],
    }
}

/// Arguments of espeak(-ng): WAV on standard output at the given speed.
pub open spec fn espeak_args(wpm: nat, voice: Option<Seq<char>>, text: Seq<char>) -> Seq<Seq<char>> {
    seq!["--stdout"@, "-s"@, decimal(wpm)] + voice_args(voice) + seq![text]
}

/// Arguments of macOS `say`: audio written to `out`.
pub open spec fn say_args(out: Seq<char>, voice: Option<Seq<char>>, wpm: nat, text: Seq<char>) -> Seq<Seq<char>> {
    seq!["-o"@, out] + voice_args(voice) + seq!["-r"@, decimal(wpm), text]
}

/// The PowerShell script that has SAPI speak `text` into the WAV file `out`.
pub open spec fn sapi_script(voice: Option<Seq<char>>, rate: int, out: Seq<char>, text: Seq<char>) -> Seq<char> {
    "Add-Type -AssemblyName System.Speech\n$synth = New-Object System.Speech.Synthesis.SpeechSynthesizer\n"@
        + (match voice {
        Some(v) => "$synth.SelectVoice(\""@ + ps_escaped(v) + "\")\n"@,
        None => seq![],
    }) + "$synth.Rate = "@ + signed_decimal(rate) + "\n$synth.SetOutputToWaveFile(\""@ + out
        + "\")\n$synth.Speak(\""@ + ps_escaped(text) + "\")\n$synth.Dispose()\n"@
}

/// The subprocess that synthesises `req` with a backend; `out` is the
/// audio file for the backends that write one.
pub open spec fn system_command(backend: SystemBackend, req: TtsRequest, out: Seq<char>) -> CommandView {
    let wpm = words_per_minute(level_or_one(req.rate));
    let voice = opt_view(req.voice);
    match backend {
        SystemBackend::EspeakNg => CommandView {
            program: "espeak-ng"@,
            args: espeak_args(wpm, voice, req.text@),
            stdin_text: None,
            audio_file: None,
        },
        SystemBackend::Espeak => CommandView {
            program: "espeak"@,
            args: espeak_args(wpm, voice, req.text@),
            stdin_text: None,
            audio_file: None,
        },
        SystemBackend::Say => CommandView {
            program: "say"@,
            args: say_args(out, voice, wpm, req.text@),
            stdin_text: None,
            audio_file: Some(out),
        },
        _ => CommandView {
            program: "powershell"@,
            args: seq![
                "-NoProfile"@,
                "-Command"@,
                sapi_script(voice, sapi_rate(level_or_one(req.rate) as int), out, req.text@),
            ],
            stdin_text: None,
            audio_file: Some(out),
        },
    }
}

/// The audio format a backend produces.
pub open spec fn system_format(backend: SystemBackend) -> Seq<char> {
    if backend == SystemBackend::Say {
        "aiff"@
    } else {
        "wav"@
    }
}

/// The error detail of a failed run of a backend.
pub open spec fn system_failure(backend: SystemBackend, errors: Seq<u8>) -> Seq<char> {
    match backend {
        SystemBackend::EspeakNg => "espeak failed: "@ + utf8_lossy(errors),
        SystemBackend::Espeak => "espeak failed: "@ + utf8_lossy(errors),
        SystemBackend::Say => "macOS say command failed"@,
        _ => "Windows SAPI TTS failed"@,
    }
}

/// The voice described by one line of a backend's voice listing, if any.
/// espeak: `Pty Language Age/Gender VoiceName File ...`; say:
/// `Name lang_REGION # sample`; SAPI script: `Name|culture`.
pub open spec fn voice_row(backend: SystemBackend, line: Seq<char>) -> Option<VoiceView> {
    let w = text_words(line);
    match backend {
        SystemBackend::EspeakNg | SystemBackend::Espeak => if w.len() >= 5 {
            Some(VoiceView { id: w[4], name: w[3], language: Some(w[1]) })
        } else {
            None
        },
        SystemBackend::Say => if w.len() >= 1 {
            Some(
                VoiceView {
                    id: w[0],
                    name: w[0],
                    language: if line.contains('#') && w.len() >= 2 {
                        Some(w[1])
                    } else {
                        None
                    },
                },
            )
        } else {
            None
        },
        SystemBackend::Sapi => if line.len() > 0 {
            Some(VoiceView { id: split_at_bar(line).0, name: split_at_bar(line).0, language: split_at_bar(line).1 })
        } else {
            None
        },
        SystemBackend::Missing => None,
    }
}

/// The voices described by a sequence of listing lines, in order.
pub open spec fn voice_rows(backend: SystemBackend, lines: Seq<Seq<char>>) -> Seq<VoiceView>
    decreases lines.len(),
{
    if lines.len() == 0 {
        seq![]
    } else {
        let prev = voice_rows(backend, lines.drop_last());
        match voice_row(backend, lines.last()) {
            Some(v) => prev.push(v),
            None => prev,
        }
    }
}

/// The lines of a listing that describe voices: all but espeak's header line.
pub open spec fn listing_body(backend: SystemBackend, lines: Seq<Seq<char>>) -> Seq<Seq<char>> {
    if (backend == SystemBackend::EspeakNg || backend == SystemBackend::Espeak) && lines.len() > 0 {
        lines.drop_first()
    } else {
        lines
    }
}

/// The voices a backend's listing describes.
pub open spec fn system_voices(backend: SystemBackend, listing: Seq<char>) -> Seq<VoiceView> {
    voice_rows(backend, listing_body(backend, text_lines(listing)))
}

/// The backend to use on a platform, given which espeak programs were found
/// on the search path (Linux only).
pub open spec fn detected_backend(platform: HostPlatform, espeak_ng: bool, espeak: bool) -> SystemBackend {
    match platform {
        HostPlatform::Linux => if espeak_ng {
            SystemBackend::EspeakNg
        } else if espeak {
            SystemBackend::Espeak
        } else {
            SystemBackend::Missing
        },
        HostPlatform::MacOs => SystemBackend::Say,
        HostPlatform::Windows => SystemBackend::Sapi,
        HostPlatform::Other => SystemBackend::Missing,
    }
}

/// The programs whose presence on the search path decides the Linux
/// backend, in order of preference.
pub fn probed_programs() -> (r: Vec<String>)
    ensures
        strings_view(r@) == seq!["espeak-ng"@, "espeak"@],
{
    let mut v: Vec<String> = Vec::new();
    push_arg(&mut v, string_of("espeak-ng"));
    push_arg(&mut v, string_of("espeak"));
    v
}

/// The backend for a platform, given which espeak programs were found.
pub fn detect_backend(platform: HostPlatform, espeak_ng: bool, espeak: bool) -> (r: SystemBackend)
    ensures
        r == detected_backend(platform, espeak_ng, espeak),
{
    match platform {
        HostPlatform::Linux => if espeak_ng {
            SystemBackend::EspeakNg
        } else if espeak {
            SystemBackend::Espeak
        } else {
            SystemBackend::Missing
        },
        HostPlatform::MacOs => SystemBackend::Say,
        HostPlatform::Windows => SystemBackend::Sapi,
        HostPlatform::Other => SystemBackend::Missing,
    }
}

/// Words per minute for a rate in thousandths.
pub fn words_per_minute_of(rate: u32) -> (r: u64)
    ensures
        r == words_per_minute(rate as nat),
{
    (175 * (rate as u64)) / 1000
}

/// SAPI rate step for a rate in thousandths.
pub fn sapi_rate_of(rate: u32) -> (r: i32)
    ensures
        r == sapi_rate(rate as int),
{
    if rate >= 1000 {
        ((rate - 1000) / 100) as i32
    } else {
        0 - (((1000 - rate) / 100) as i32)
    }
}

/// Appends `t` escaped for a double-quoted PowerShell string.
fn push_ps_escaped(out: &mut String, t: &str)
    ensures
        final(out)@ == old(out)@ + ps_escaped(t@),
{
    let cs = chars_of(t);
    let mut i: usize = 0;
    while i < cs.len()
        invariant
            i <= cs@.len(),
            cs@ == t@,
            out@ == old(out)@ + ps_escaped(cs@.subrange(0, i as int)),
        decreases cs@.len() - i,
    {
        let c = cs[i];
        let ghost before = out@;
        if c == '"' {
            push_char(out, '`');
        }
        push_char(out, c);
        proof {
            let p = cs@.subrange(0, i as int + 1);
            assert(p.drop_last() =~= cs@.subrange(0, i as int));
            assert(p.last() == c);
            if c == '"' {
                assert(out@ =~= before + seq!['`', '"']);
            } else {
                assert(out@ =~= before + seq![c]);
            }
        }
        i = i + 1;
    }
    assert(cs@.subrange(0, cs@.len() as int) =~= t@);
}

/// The `-v voice` arguments, appended when a voice is chosen.
fn push_voice_args(args: &mut Vec<String>, voice: &Option<String>)
    ensures
        strings_view(final(args)@) == strings_view(old(args)@) + voice_args(opt_view(*voice)),
{
    match voice {
        Some(v) => {
            push_arg(args, string_of("-v"));
            push_arg(args, v.clone());
        },
        None => {},
    }
    assert(strings_view(final(args)@) =~= strings_view(old(args)@) + voice_args(opt_view(*voice)));
}

/// The espeak(-ng) subprocess for a request.
fn espeak_command(program: String, wpm: u64, request: &TtsRequest) -> (r: CommandSpec)
    ensures
        r@ == (CommandView {
            program: program@,
            args: espeak_args(wpm as nat, opt_view(request.voice), request.text@),
            stdin_text: None,
            audio_file: None,
        }),
{
    let mut args: Vec<String> = Vec::new();
    push_arg(&mut args, string_of("--stdout"));
    push_arg(&mut args, string_of("-s"));
    let mut w = String::new();
    push_decimal(&mut w, wpm);
    assert(w@ =~= decimal(wpm as nat));
    push_arg(&mut args, w);
    push_voice_args(&mut args, &request.voice);
    push_arg(&mut args, request.text.clone());
    assert(strings_view(args@) =~= espeak_args(wpm as nat, opt_view(request.voice), request.text@));
    CommandSpec { program, args, stdin_text: None, audio_file: None }
}

/// The SAPI script for a request.
fn sapi_script_of(voice: &Option<String>, rate: i32, out: &str, text: &str) -> (r: String)
    ensures
        r@ == sapi_script(opt_view(*voice), rate as int, out@, text@),
{
    let mut s = string_of(
        "Add-Type -AssemblyName System.Speech\n$synth = New-Object System.Speech.Synthesis.SpeechSynthesizer\n",
    );
    match voice {
        Some(v) => {
            push_str(&mut s, "$synth.SelectVoice(\"");
            push_ps_escaped(&mut s, v.as_str());
            push_str(&mut s, "\")\n");
        },
        None => {},
    }
    push_str(&mut s, "$synth.Rate = ");
    push_signed(&mut s, rate);
    push_str(&mut s, "\n$synth.SetOutputToWaveFile(\"");
    push_str(&mut s, out);
    push_str(&mut s, "\")\n$synth.Speak(\"");
    push_ps_escaped(&mut s, text);
    push_str(&mut s, "\")\n$synth.Dispose()\n");
    assert(s@ =~= sapi_script(opt_view(*voice), rate as int, out@, text@));
    s
}

/// The PowerShell script that lists the installed SAPI voices, one
/// `Name|culture` per line.
pub const SAPI_VOICE_LISTING: &'static str = "Add-Type -AssemblyName System.Speech\n$synth = New-Object System.Speech.Synthesis.SpeechSynthesizer\n$synth.GetInstalledVoices() | ForEach-Object {\n    $v = $_.VoiceInfo\n    \"$($v.Name)|$($v.Culture.Name)\"\n}\n";

/// The subprocess that lists a backend's voices.
pub open spec fn listing_command(backend: SystemBackend) -> CommandView {
    CommandView {
        program: match backend {
            SystemBackend::EspeakNg => "espeak-ng"@,
            SystemBackend::Espeak => "espeak"@,
            SystemBackend::Say => "say"@,
            _ => "powershell"@,
        },
        args: match backend {
            SystemBackend::EspeakNg => seq!["--voices"@],
            SystemBackend::Espeak => seq!["--voices"@],
            SystemBackend::Say => seq!["-v"@, "?"@],
            _ => seq!["-NoProfile"@, "-Command"@, SAPI_VOICE_LISTING@],
        },
        stdin_text: None,
        audio_file: None,
    }
}

impl SystemTtsEngine {
    /// The backend the engine drives.
    pub closed spec fn backend_of(&self) -> SystemBackend {
        self.backend
    }

    /// An engine driving the given backend.
    pub fn new(backend: SystemBackend) -> (r: Self)
        ensures
            r.backend_of() == backend,
    {
        SystemTtsEngine { backend }
    }

    /// The backend the engine drives.
    pub fn backend(&self) -> (r: SystemBackend)
        ensures
            r == self.backend_of(),
    {
        self.backend
    }

    /// Display label.
    pub fn name(&self) -> (r: &'static str)
        ensures
            r@ == "System TTS"@,
    {
        "System TTS"
    }

    /// Whether a backend was found.
    pub fn is_available(&self) -> (r: bool)
        ensures
            r == (self.backend_of() != SystemBackend::Missing),
    {
        self.backend != SystemBackend::Missing
    }

    /// The subprocess that lists the backend's voices; none when there is
    /// no backend (the list is then empty).
    pub fn voices_command(&self) -> (r: Option<CommandSpec>)
        ensures
            self.backend_of() == SystemBackend::Missing <==> r is None,
            r matches Some(c) ==> c@ == listing_command(self.backend_of()),
    {
        let mut args: Vec<String> = Vec::new();
        let program = match self.backend {
            SystemBackend::EspeakNg => {
                push_arg(&mut args, string_of("--voices"));
                string_of("espeak-ng")
            },
            SystemBackend::Espeak => {
                push_arg(&mut args, string_of("--voices"));
                string_of("espeak")
            },
            SystemBackend::Say => {
                push_arg(&mut args, string_of("-v"));
                push_arg(&mut args, string_of("?"));
                string_of("say")
            },
            SystemBackend::Sapi => {
                push_arg(&mut args, string_of("-NoProfile"));
                push_arg(&mut args, string_of("-Command"));
                push_arg(&mut args, string_of(SAPI_VOICE_LISTING));
                string_of("powershell")
            },
            SystemBackend::Missing => {
                return None;
            },
        };
        assert(strings_view(args@) =~= listing_command(self.backend_of()).args);
        Some(CommandSpec { program, args, stdin_text: None, audio_file: None })
    }

    /// The voice one listing line describes, if any.
    fn parse_row(&self, line: &String) -> (r: Option<VoiceInfo>)
        ensures
            match r {
                Some(v) => voice_row(self.backend_of(), line@) == Some(v@),
                None => voice_row(self.backend_of(), line@) is None,
            },
    {
        match self.backend {
            SystemBackend::EspeakNg | SystemBackend::Espeak => {
                let w = words_of(line.as_str());
                if w.len() >= 5 {
                    Some(VoiceInfo { id: w[4].clone(), name: w[3].clone(), language: Some(w[1].clone()) })
                } else {
                    None
                }
            },
            SystemBackend::Say => {
                let w = words_of(line.as_str());
                if w.len() >= 1 {
                    let language = if has_char(line.as_str(), '#') && w.len() >= 2 {
                        Some(w[1].clone())
                    } else {
                        None
                    };
                    Some(VoiceInfo { id: w[0].clone(), name: w[0].clone(), language })
                } else {
                    None
                }
            },
            SystemBackend::Sapi => {
                let n = chars_of(line.as_str()).len();
                if n > 0 {
                    let (id, language) = split_bar(line.as_str());
                    Some(VoiceInfo { id: id.clone(), name: id, language })
                } else {
                    None
                }
            },
            SystemBackend::Missing => None,
        }
    }

    /// The voices described by the output of `voices_command`.
    pub fn parse_voices(&self, listing: &str) -> (r: Vec<VoiceInfo>)
        ensures
            voices_view(r@) == system_voices(self.backend_of(), listing@),
    {
        let lines = lines_of(listing);
        let ghost all = lines@.map_values(|l: String| l@);
        let start: usize = if (self.backend == SystemBackend::EspeakNg || self.backend == SystemBackend::Espeak)
            && lines.len() > 0 {
            1
        } else {
            0
        };
        let mut out: Vec<VoiceInfo> = Vec::new();
        let mut i: usize = start;
        while i < lines.len()
            invariant
                start <= i <= lines@.len(),
                all == lines@.map_values(|l: String| l@),
                all == text_lines(listing@),
                listing_body(self.backend_of(), all) == all.subrange(start as int, all.len() as int),
                voices_view(out@) == voice_rows(self.backend_of(), all.subrange(start as int, i as int)),
            decreases lines@.len() - i,
        {
            let row = self.parse_row(&lines[i]);
            proof {
                let p = all.subrange(start as int, i as int + 1);
                assert(p.drop_last() =~= all.subrange(start as int, i as int));
                assert(p.last() == lines@[i as int]@);
            }
            match row {
                Some(v) => push_voice(&mut out, v),
                None => {},
            }
            i = i + 1;
        }
        proof {
            if start == 1 {
                assert(all.drop_first() =~= all.subrange(1, all.len() as int));
            } else {
                assert(all =~= all.subrange(0, all.len() as int));
            }
        }
        out
    }

    /// The subprocess that synthesises `request`; `out_path` is the file
    /// the say and SAPI backends write the audio to. Fails when there is no
    /// backend.
    pub fn synthesize_command(&self, request: &TtsRequest, out_path: &str) -> (r: Result<CommandSpec, TtsError>)
        ensures
            self.backend_of() == SystemBackend::Missing ==> (r matches Err(e) && e is EngineUnavailable
                && e.text() == "No system TTS backend available"@),
            self.backend_of() != SystemBackend::Missing ==> (r matches Ok(c) && c@ == system_command(
                self.backend_of(),
                *request,
                out_path@,
            )),
    {
        let rate = match request.rate {
            Some(v) => v,
            None => LEVEL_ONE,
        };
        let wpm = words_per_minute_of(rate);
        assert(wpm as nat == words_per_minute(level_or_one(request.rate)));
        let mut args: Vec<String> = Vec::new();
        match self.backend {
            SystemBackend::EspeakNg => {
                Ok(espeak_command(string_of("espeak-ng"), wpm, request))
            },
            SystemBackend::Espeak => {
                Ok(espeak_command(string_of("espeak"), wpm, request))
            },
            SystemBackend::Say => {
                push_arg(&mut args, string_of("-o"));
                push_arg(&mut args, string_of(out_path));
                push_voice_args(&mut args, &request.voice);
                push_arg(&mut args, string_of("-r"));
                let mut w = String::new();
                push_decimal(&mut w, wpm);
                assert(w@ =~= decimal(wpm as nat));
                push_arg(&mut args, w);
                push_arg(&mut args, request.text.clone());
                assert(strings_view(args@) =~= say_args(out_path@, opt_view(request.voice), wpm as nat, request.text@));
                Ok(CommandSpec { program: string_of("say"), args, stdin_text: None, audio_file: Some(string_of(out_path)) })
            },
            SystemBackend::Sapi => {
                let script = sapi_script_of(&request.voice, sapi_rate_of(rate), out_path, request.text.as_str());
                push_arg(&mut args, string_of("-NoProfile"));
                push_arg(&mut args, string_of("-Command"));
                push_arg(&mut args, script);
                assert(strings_view(args@) =~= system_command(self.backend_of(), *request, out_path@).args);
                Ok(CommandSpec {
                    program: string_of("powershell"),
                    args,
                    stdin_text: None,
                    audio_file: Some(string_of(out_path)),
                })
            },
            SystemBackend::Missing => Err(TtsError::EngineUnavailable(string_of("No system TTS backend available"))),
        }
    }

    /// The result of a finished run of the synthesis subprocess: the audio
    /// (22050 Hz mono) when it succeeded, its failure otherwise.
    pub fn finish_synthesis(&self, outcome: CommandOutcome) -> (r: Result<TtsResult, TtsError>)
        ensures
            self.backend_of() == SystemBackend::Missing ==> (r matches Err(e) && e is EngineUnavailable
                && e.text() == "No system TTS backend available"@),
            self.backend_of() != SystemBackend::Missing && outcome.success ==> (r matches Ok(t)
                && t.audio_data@ == outcome.audio@ && t.sample_rate == 22050 && t.channels == 1
                && t.format@ == system_format(self.backend_of())),
            self.backend_of() != SystemBackend::Missing && !outcome.success ==> (r matches Err(e)
                && e is SynthesisFailure && e.text() == system_failure(self.backend_of(), outcome.errors@)),
    {
        if self.backend == SystemBackend::Missing {
            return Err(TtsError::EngineUnavailable(string_of("No system TTS backend available")));
        }
        if outcome.success {
            let format = if self.backend == SystemBackend::Say {
                string_of("aiff")
            } else {
                string_of("wav")
            };
            Ok(TtsResult { audio_data: outcome.audio, sample_rate: 22050, channels: 1, format })
        } else {
            let msg = match self.backend {
                SystemBackend::EspeakNg | SystemBackend::Espeak => {
                    let mut m = string_of("espeak failed: ");
                    let e = lossy_text(outcome.errors.as_slice());
                    push_str(&mut m, e.as_str());
                    m
                },
                SystemBackend::Say => string_of("macOS say command failed"),
                _ => string_of("Windows SAPI TTS failed"),
            };
            Err(TtsError::SynthesisFailure(msg))
        }
    }
}

} // verus!
