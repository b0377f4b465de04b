//! Content that ships with the bot.

pub mod question;
