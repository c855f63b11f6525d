//! Verified core of a Discord raffle bot: command routing, ticket tallies,
//! progress bars and the texts of every reply the bot sends.

pub mod api;
pub mod commands;
pub mod messages;
pub mod laws;
pub mod model;
pub mod record_id;
pub mod reply;
pub mod rows;
pub mod table;
pub mod tally;
pub mod text;
