//! Orchestration logic for a local generative-model runtime: model presets,
//! request assembly, conversation state, prompt enhancement and transcription
//! metadata. Every function here is pure; loading models and running
//! inference are left to the caller.

pub mod audio_transcription;
pub mod cli_chat;
pub mod conversation;
pub mod image_generation;
pub mod preset;
pub mod promp_enhancer;
pub mod request;
pub mod text;
