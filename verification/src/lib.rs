//! Decision logic of the botchling event pipeline: decoding of the game
//! server's binary event records, per-session bookkeeping, the worker's
//! state machine and the configuration and log-level rules.

pub mod app;
pub mod application;
pub mod config;
pub mod domain;
pub mod error;
pub mod infrastructure;
pub mod text;
