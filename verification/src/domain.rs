pub mod event;
pub mod session;
pub mod wire;
