use vstd::prelude::*;

use crate::text::{push_str, string_of};
use crate::types::{TtsError, LEVEL_ONE};

verus! {

/// A command sent to the audio worker. Volume is in thousandths.
#[derive(Debug, Clone, PartialEq)]
pub enum PlayerCommand {
    Play(Vec<u8>),
    Stop,
    Pause,
    Resume,
    SetVolume(u32),
    Shutdown,
}

/// The worker's single answer to a command, or to its start.
#[derive(Debug, Clone, PartialEq)]
pub enum PlayerResponse {
    Done,
    Failed(String),
}

impl View for PlayerResponse {
    /// No detail for success, the failure's detail otherwise.
    type V = Option<Seq<char>>;

    open spec fn view(&self) -> Option<Seq<char>> {
        match self {
            PlayerResponse::Done => None,
            PlayerResponse::Failed(m) => Some(m@),
        }
    }
}

/// An operation on the audio sink. `Append` queues the decoded sound of
/// the `Play` command being handled.
#[derive(Debug, Clone, Copy, PartialEq, Eq, Structural)]
pub enum SinkOp {
    Stop,
    Append,
    Play,
    Pause,
    SetVolume(u32),
}

/// Why the worker could not open the audio output.
#[derive(Debug, Clone, PartialEq)]
pub enum InitFailure {
    /// No output stream (no device).
    OutputStream(String),
    /// The stream opened but no sink could be made on it.
    Sink(String),
}

/// What the worker does with one command: the sink operations in order,
/// the answer, and whether its loop goes on.
#[derive(Debug, Clone, PartialEq)]
pub struct WorkerStep {
    pub ops: Vec<SinkOp>,
    pub response: PlayerResponse,
    pub keep_running: bool,
}

/// A volume clamped into 0..=1000 thousandths.
pub open spec fn clamped_volume(v: u32) -> u32 {
    if v > LEVEL_ONE {
        LEVEL_ONE
    } else {
        v
    }
}

/// The sink operations that carry out a command (for `Play`, once its
/// audio has decoded).
pub open spec fn command_ops(cmd: PlayerCommand) -> Seq<SinkOp> {
    match cmd {
        PlayerCommand::Play(_) => seq![SinkOp::Stop, SinkOp::Append, SinkOp::Play],
        PlayerCommand::Stop => seq![SinkOp::Stop],
        PlayerCommand::Pause => seq![SinkOp::Pause],
        PlayerCommand::Resume => seq![SinkOp::Play],
        PlayerCommand::SetVolume(v) => seq![SinkOp::SetVolume(clamped_volume(v))],
        PlayerCommand::Shutdown => seq![SinkOp::Stop],
    }
}

/// The detail of an initialisation failure.
pub open spec fn init_failure_text(f: InitFailure) -> Seq<char> {
    match f {
        InitFailure::OutputStream(e) => "Failed to open audio output: "@ + e@,
        InitFailure::Sink(e) => "Failed to create audio sink: "@ + e@,
    }
}

/// The worker's first answer for the outcome of opening the output.
pub open spec fn first_answer(opened: Result<(), InitFailure>) -> Option<Seq<char>> {
    match opened {
        Ok(_) => None,
        Err(f) => Some(init_failure_text(f)),
    }
}

/// Whether the handle is built from the worker's first answer (none when
/// the worker ended without answering).
pub open spec fn handle_built(first: Option<Option<Seq<char>>>) -> bool {
    first == Some(None::<Seq<char>>)
}

/// A volume clamped into 0..=1000 thousandths.
pub fn clamp_volume(v: u32) -> (r: u32)
    ensures
        r == clamped_volume(v),
        r <= LEVEL_ONE,
{
    if v > LEVEL_ONE {
        LEVEL_ONE
    } else {
        v
    }
}

/// The worker's first answer, sent once before its command loop: `Ok` when
/// the output opened, else the reason.
pub fn init_response(opened: Result<(), InitFailure>) -> (r: PlayerResponse)
    ensures
        r@ == first_answer(opened),
{
    match opened {
        Ok(()) => PlayerResponse::Done,
        Err(InitFailure::OutputStream(e)) => {
            let mut m = string_of("Failed to open audio output: ");
            push_str(&mut m, e.as_str());
            PlayerResponse::Failed(m)
        },
        Err(InitFailure::Sink(e)) => {
            let mut m = string_of("Failed to create audio sink: ");
            push_str(&mut m, e.as_str());
            PlayerResponse::Failed(m)
        },
    }
}

/// What the worker does with a command. `decoded` is the outcome of
/// decoding the audio of a `Play` command (ignored for the others). A
/// decoding failure is answered with an error and the loop goes on;
/// `Shutdown` stops the sound and ends the loop.
pub fn worker_step(cmd: &PlayerCommand, decoded: Result<(), String>) -> (r: WorkerStep)
    ensures
        r.keep_running == !(*cmd is Shutdown),
        (*cmd is Play && decoded is Err) ==> (r.ops@ == Seq::<SinkOp>::empty()
            && r.response@ == Some("Failed to decode audio: "@ + decoded->Err_0@)),
        !(*cmd is Play && decoded is Err) ==> (r.ops@ == command_ops(*cmd) && r.response is Done),
{
    let mut ops: Vec<SinkOp> = Vec::new();
    let keep_running = match cmd {
        PlayerCommand::Shutdown => false,
        _ => true,
    };
    match cmd {
        PlayerCommand::Play(_) => {
            match decoded {
                Err(e) => {
                    let mut m = string_of("Failed to decode audio: ");
                    push_str(&mut m, e.as_str());
                    assert(ops@ =~= Seq::<SinkOp>::empty());
                    return WorkerStep { ops, response: PlayerResponse::Failed(m), keep_running };
                },
                Ok(()) => {
                    ops.push(SinkOp::Stop);
                    ops.push(SinkOp::Append);
                    ops.push(SinkOp::Play);
                },
            }
        },
        PlayerCommand::Stop => ops.push(SinkOp::Stop),
        PlayerCommand::Pause => ops.push(SinkOp::Pause),
        PlayerCommand::Resume => ops.push(SinkOp::Play),
        PlayerCommand::SetVolume(v) => ops.push(SinkOp::SetVolume(clamp_volume(*v))),
        PlayerCommand::Shutdown => ops.push(SinkOp::Stop),
    }
    assert(ops@ =~= command_ops(*cmd));
    WorkerStep { ops, response: PlayerResponse::Done, keep_running }
}

/// Whether the handle can be built from the worker's first answer (none:
/// the worker ended without answering).
pub fn init_outcome(first: Option<PlayerResponse>) -> (r: Result<(), TtsError>)
    ensures
        first is None ==> (r matches Err(e) && e is PlayerUnresponsive
            && e.text() == "Audio player thread died during init"@),
        first matches Some(PlayerResponse::Failed(m)) ==> (r matches Err(e) && e is NoAudioDevice
            && e.text() == "Audio player init failed: "@ + m@),
        first matches Some(PlayerResponse::Done) ==> r is Ok,
        r is Ok <==> handle_built(match first {
            Some(a) => Some(a@),
            None => None,
        }),
{
    match first {
        None => Err(TtsError::PlayerUnresponsive(string_of("Audio player thread died during init"))),
        Some(PlayerResponse::Failed(m)) => {
            let mut t = string_of("Audio player init failed: ");
            push_str(&mut t, m.as_str());
            Err(TtsError::NoAudioDevice(t))
        },
        Some(PlayerResponse::Done) => Ok(()),
    }
}

/// The outcome of one command for the caller: whether it could be sent,
/// and the answer received (none: the worker ended first).
pub fn reply_outcome(sent: bool, reply: Option<PlayerResponse>) -> (r: Result<(), TtsError>)
    ensures
        !sent ==> (r matches Err(e) && e is PlayerUnresponsive && e.text() == "Audio player thread not responding"@),
        sent && reply is None ==> (r matches Err(e) && e is PlayerUnresponsive
            && e.text() == "Audio player thread died"@),
        sent && reply is Some && reply->Some_0 is Failed ==> (r matches Err(e) && e is PlaybackFailure
            && Some(e.text()) == reply->Some_0@),
        sent && reply is Some && reply->Some_0 is Done ==> r is Ok,
{
    if !sent {
        return Err(TtsError::PlayerUnresponsive(string_of("Audio player thread not responding")));
    }
    match reply {
        None => Err(TtsError::PlayerUnresponsive(string_of("Audio player thread died"))),
        Some(PlayerResponse::Failed(m)) => Err(TtsError::PlaybackFailure(m)),
        Some(PlayerResponse::Done) => Ok(()),
    }
}

/// When no audio output can be opened, the worker still answers once, and
/// the handle is not built from that answer.
pub proof fn lemma_no_sink_fails_construction(f: InitFailure)
    ensures
        first_answer(Err(f)) is Some,
        !handle_built(Some(first_answer(Err(f)))),
{
}

} // verus!
