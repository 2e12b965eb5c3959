//! Dispatch core of a chat bot.
//!
//! A long-lived bot process hands every gateway event to a listener, which
//! forwards each event to its dedicated delegate and, on the first
//! cache-ready signal, starts a background loop that refreshes the bot's
//! displayed status once a minute. The surrounding application owns the
//! network connection, the async runtime and the delegate bodies; this crate
//! holds the decisions they wire together, each with a proved contract:
//! which delegate an event goes to, with which payload, when the status loop
//! starts (exactly once), and the cadence it keeps.

pub mod cmds;
pub mod listeners;
pub mod status;
