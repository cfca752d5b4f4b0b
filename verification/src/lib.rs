//! Meta-command runtime of a text-driven narrative engine.
//!
//! While a player is inside the story loop they may issue commands that read
//! or change the session without advancing the story: go back, change the
//! language, read an unlocked info page, read the action log, toggle sound
//! channels, save, quit, and a few hidden debugging commands.
//!
//! The library decides; it never touches a terminal, a file or an audio
//! device. Whenever a command needs the player to pick something, or needs
//! a collaborator to act, the dispatcher hands back an [`exchange::Request`]
//! together with the [`exchange::Pending`] state to resume from once the
//! caller has the [`exchange::Reply`].

pub mod channels;
pub mod exchange;
pub mod laws;
pub mod outcome;
pub mod paging;
pub mod runtime;
pub mod session;
pub mod text;
