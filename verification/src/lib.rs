//! Verified core of a game-log report renderer.
//!
//! A recorded multiplayer session arrives as a decoded log: timestamped raw
//! events, a team list, an optional declared winner, and mode-specific
//! auxiliary fields.  This crate turns that log into a render-ready model:
//! it resolves each raw event to a typed event through the active mode's
//! extension handler, builds the team/player roster with display colors,
//! resolves the declared winner, and determines chat-message audiences.
//! Transport, persistence and template rendering live outside this crate.

pub mod bed;
pub mod bp;
pub mod cai;
pub mod error;
pub mod event;
pub mod gamelog;
pub mod grav;
pub mod halloween;
pub mod log;
pub mod modes;
pub mod roster;
pub mod strutil;
pub mod timv;
pub mod wire;
