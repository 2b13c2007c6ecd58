//! Online play: the relay's wire format and its room registry, the game
//! protocol, and the decisions a client makes on what the relay sends.
pub mod client;
pub mod protocol;
pub mod relay;
pub mod session;
pub mod wire;

pub use wire::{Hello, RoomCode};
