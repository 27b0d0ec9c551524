//! Core logic of a Discord music bot: the guild/user caches and the
//! database writes they call for, the guild record's stored search
//! results, command input checks and the text the bot replies with.

pub mod text;
pub mod models;
pub mod cache;
pub mod spotify;
pub mod commands;
pub mod replies;
pub mod play;
