//! Verified core of the 3D Canon artillery game: the relay's wire format
//! and room registry, the game protocol codec, the decisions a client and
//! a session make on what arrives, the turn rules, the deterministic
//! generator behind seeded maps and winds, and the WAV container of the
//! synthesised sounds.

pub mod game;
pub mod hud;
pub mod le;
pub mod net;
pub mod sound;
pub mod terrain;
