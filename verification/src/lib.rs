//! Alerting rules that decide which tweets are forwarded to Telegram chats,
//! the alerts sent when they fire, the tweet model they read and log, and
//! the stored Twitter login format.

pub mod alert;
pub mod compiled;
pub mod config;
pub mod decimal;
pub mod pattern;
pub mod rule;
pub mod twitter;
