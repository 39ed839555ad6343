//! Notification source and event router for the freedesktop notifications bus.
//!
//! [`source::WispSource`] owns the live notifications, allocates their ids, decides
//! when they expire and how they close, and returns for each operation the events,
//! bus signals and timers that its runtime carries out. The other modules read
//! bus traffic into notifications and prepare what consumers show or forward.
pub mod appearance;
pub mod config;
pub mod debug_command;
pub mod forward;
pub mod lifecycle;
pub mod monitor;
pub mod popup;
pub mod source;
pub mod stack;
pub mod store;
pub mod text;
pub mod types;
pub mod wire;
