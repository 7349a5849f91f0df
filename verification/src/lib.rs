//! Verified core of the HarTex Discord bot: the pieces of its database
//! helpers, event handlers, CDN links, localization and derive parsing that
//! compute, with the I/O left to the caller.

pub mod text;
pub mod cdn;
pub mod handler;
pub mod bors;
pub mod whitelist;
pub mod guild_status;
pub mod derive;
pub mod localization;
