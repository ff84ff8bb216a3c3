//! Forecast engine for a weather notification bot.
//!
//! The library holds the verified core of the bot: the staleness decision
//! that drives refetching, the time-window broadcast gate, the message
//! formatter, the fan-out state machine with per-recipient failure
//! isolation, and the on-demand responder that reads the same cached
//! snapshot. All outbound I/O (forecast fetch, directory refresh, message
//! sends) lives outside the library and hands plain values in and out.

pub mod dispatch;
pub mod engine;
pub mod errors;
pub mod forecast;
pub mod gate;
pub mod messages;
pub mod render;
pub mod webhook;
