//! Transcription cache, key failover and request state machine of a
//! Telegram bot that transcribes, translates and summarizes voice messages.

pub mod types;
pub mod segments;
pub mod failover;
pub mod cache;
pub mod text;
pub mod media;
pub mod gate;
pub mod orchestrator;
pub mod model_name;
pub mod reply;
pub mod keys;
pub mod backend;
pub mod retry;
pub mod commands;
pub mod dev_commands;
pub mod stats;
pub mod speech;
pub mod messages;
