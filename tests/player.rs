use neko_tts::player::{
    clamp_volume, init_outcome, init_response, reply_outcome, worker_step, InitFailure, PlayerCommand,
    PlayerResponse, SinkOp,
};
use neko_tts::types::TtsError;

#[test]
fn no_output_fails_construction() {
    let first = init_response(Err(InitFailure::OutputStream("no device".into())));
    assert_eq!(first, PlayerResponse::Failed("Failed to open audio output: no device".into()));
    assert_eq!(
        init_outcome(Some(first)),
        Err(TtsError::NoAudioDevice("Audio player init failed: Failed to open audio output: no device".into()))
    );
    let sink = init_response(Err(InitFailure::Sink("busy".into())));
    assert_eq!(sink, PlayerResponse::Failed("Failed to create audio sink: busy".into()));
    assert!(init_outcome(Some(sink)).is_err());
    assert_eq!(
        init_outcome(None),
        Err(TtsError::PlayerUnresponsive("Audio player thread died during init".into()))
    );
    assert_eq!(init_outcome(Some(init_response(Ok(())))), Ok(()));
}

#[test]
fn play_replaces_current_sound() {
    let step = worker_step(&PlayerCommand::Play(vec![1]), Ok(()));
    assert_eq!(step.ops, vec![SinkOp::Stop, SinkOp::Append, SinkOp::Play]);
    assert_eq!(step.response, PlayerResponse::Done);
    assert!(step.keep_running);
}

#[test]
fn decode_failure_keeps_worker_alive() {
    let step = worker_step(&PlayerCommand::Play(vec![0]), Err("unrecognized format".into()));
    assert!(step.ops.is_empty());
    assert_eq!(step.response, PlayerResponse::Failed("Failed to decode audio: unrecognized format".into()));
    assert!(step.keep_running);
}

#[test]
fn control_commands() {
    assert_eq!(worker_step(&PlayerCommand::Stop, Ok(())).ops, vec![SinkOp::Stop]);
    assert_eq!(worker_step(&PlayerCommand::Pause, Ok(())).ops, vec![SinkOp::Pause]);
    assert_eq!(worker_step(&PlayerCommand::Resume, Ok(())).ops, vec![SinkOp::Play]);
    assert_eq!(worker_step(&PlayerCommand::SetVolume(1500), Ok(())).ops, vec![SinkOp::SetVolume(1000)]);
    assert_eq!(worker_step(&PlayerCommand::SetVolume(250), Ok(())).ops, vec![SinkOp::SetVolume(250)]);
    let shutdown = worker_step(&PlayerCommand::Shutdown, Ok(()));
    assert_eq!(shutdown.ops, vec![SinkOp::Stop]);
    assert!(!shutdown.keep_running);
    assert_eq!(clamp_volume(0), 0);
    assert_eq!(clamp_volume(u32::MAX), 1000);
}

#[test]
fn command_replies() {
    assert_eq!(
        reply_outcome(false, None),
        Err(TtsError::PlayerUnresponsive("Audio player thread not responding".into()))
    );
    assert_eq!(reply_outcome(true, None), Err(TtsError::PlayerUnresponsive("Audio player thread died".into())));
    assert_eq!(
        reply_outcome(true, Some(PlayerResponse::Failed("x".into()))),
        Err(TtsError::PlaybackFailure("x".into()))
    );
    assert_eq!(reply_outcome(true, Some(PlayerResponse::Done)), Ok(()));
}
