use vstd::prelude::*;

use crate::types::{opt_view, strings_view, voices_view, VoiceInfo};

verus! {

/// A subprocess to run for an engine: program, arguments, the text to feed
/// on standard input, and the file the audio is written to (standard
/// output when there is none).
#[derive(Debug, Clone, PartialEq)]
pub struct CommandSpec {
    pub program: String,
    pub args: Vec<String>,
    pub stdin_text: Option<String>,
    pub audio_file: Option<String>,
}

/// A subprocess as plain text.
pub struct CommandView {
    pub program: Seq<char>,
    pub args: Seq<Seq<char>>,
    pub stdin_text: Option<Seq<char>>,
    pub audio_file: Option<Seq<char>>,
}

impl View for CommandSpec {
    type V = CommandView;

    open spec fn view(&self) -> CommandView {
        CommandView {
            program: self.program@,
            args: strings_view(self.args@),
            stdin_text: opt_view(self.stdin_text),
            audio_file: opt_view(self.audio_file),
        }
    }
}

/// What a finished subprocess produced: whether it exited successfully,
/// the audio (standard output, or the audio file), and its error stream.
#[derive(Debug, Clone, PartialEq)]
pub struct CommandOutcome {
    pub success: bool,
    pub audio: Vec<u8>,
    pub errors: Vec<u8>,
}

/// An HTTP POST to send for an engine.
#[derive(Debug, Clone, PartialEq)]
pub struct HttpRequest {
    pub url: String,
    pub headers: Vec<(String, String)>,
    pub body: String,
}

/// An HTTP request as plain text.
pub struct HttpView {
    pub url: Seq<char>,
    pub headers: Seq<(Seq<char>, Seq<char>)>,
    pub body: Seq<char>,
}

/// The texts of a list of header pairs.
pub open spec fn headers_view(h: Seq<(String, String)>) -> Seq<(Seq<char>, Seq<char>)> {
    h.map_values(|p: (String, String)| (p.0@, p.1@))
}

impl View for HttpRequest {
    type V = HttpView;

    open spec fn view(&self) -> HttpView {
        HttpView { url: self.url@, headers: headers_view(self.headers@), body: self.body@ }
    }
}

/// The answer to an HTTP request: status code, the status as displayed
/// ("404 Not Found"), and the body.
#[derive(Debug, Clone, PartialEq)]
pub struct HttpResponse {
    pub status: u16,
    pub status_line: String,
    pub body: Vec<u8>,
}

/// Whether a status code is a success (2xx).
pub open spec fn is_success(status: u16) -> bool {
    200 <= status <= 299
}

/// What an engine needs done to synthesise a request.
#[derive(Debug, Clone, PartialEq)]
pub enum SynthesisPlan {
    Command(CommandSpec),
    Http(HttpRequest),
}

/// What came back from carrying out a plan. `Failed` holds the detail of an
/// I/O failure (spawn, write, network) that left no outcome to read.
#[derive(Debug, Clone, PartialEq)]
pub enum SynthesisOutcome {
    Command(CommandOutcome),
    Http(HttpResponse),
    Failed(String),
}

/// Appends a string to a list of arguments.
pub fn push_arg(args: &mut Vec<String>, a: String)
    ensures
        strings_view(final(args)@) == strings_view(old(args)@).push(a@),
{
    args.push(a);
    assert(strings_view(final(args)@) =~= strings_view(old(args)@).push(a@));
}

/// Appends a header pair to a list of headers.
pub fn push_header(headers: &mut Vec<(String, String)>, name: String, value: String)
    ensures
        headers_view(final(headers)@) == headers_view(old(headers)@).push((name@, value@)),
{
    headers.push((name, value));
    assert(headers_view(final(headers)@) =~= headers_view(old(headers)@).push((name@, value@)));
}

/// Appends one voice to a list of voices.
pub fn push_voice(voices: &mut Vec<VoiceInfo>, v: VoiceInfo)
    ensures
        voices_view(final(voices)@) == voices_view(old(voices)@).push(v@),
{
    voices.push(v);
    assert(voices_view(final(voices)@) =~= voices_view(old(voices)@).push(v@));
}

} // verus!
