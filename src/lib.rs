//! Text-to-speech orchestration: speech engines, the playback state
//! machine, the audio-output worker protocol and the supervisor of the
//! companion server process.
pub mod cloud_tts;
pub mod config;
pub mod engine;
pub mod manager;
pub mod piper_tts;
pub mod player;
pub mod server;
pub mod system_tts;
pub mod text;
pub mod types;
