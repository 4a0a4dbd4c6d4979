//! Core logic of a network speaker that announces itself for a streaming-music
//! remote-control protocol: credential discovery hand-off, session lifecycle
//! with reconnect rate limiting, player-event normalization, and a
//! non-blocking audio-capture tee for a visualization consumer.

pub mod assets;
pub mod audio;
pub mod capture;
pub mod config;
pub mod events;
pub mod hashing;
pub mod ids;
pub mod kv;
pub mod lyrics;
pub mod orchestrator;
pub mod session;
pub mod sink;
