//! A verified core for a Telegram-controlled Binance trading bot: message
//! escaping, request signing, configuration parsing, rate limiting and the
//! decision rules of the trading strategy.

pub mod binance;
pub mod bot;
pub mod clock;
pub mod config;
pub mod markdown;
pub mod market;
pub mod rate_limit;
pub mod signing;
pub mod strategy;
pub mod text;
