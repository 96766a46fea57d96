pub mod logger;
pub mod config;
pub mod mongo;
