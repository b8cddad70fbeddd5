//! Decision logic of a market-making bot for Omnibook's one-minute BTC
//! up/down rounds: request signing, the market state machine, the quoting
//! strategy's integer parts, the event-loop controller and the feed parsers.

pub mod text;
pub mod auth;
pub mod models;
pub mod state;
pub mod strategy;
pub mod controller;
pub mod feed;
