//! The bot's configuration: Telegram and Twitter credentials and the rules.

pub mod telegram;
pub mod twitter;

use vstd::prelude::*;

use crate::rule::Rule;

verus! {

/// Everything the configuration file holds.
#[derive(Clone)]
pub struct Config {
    pub telegram: TelegramConfig,
    pub twitter: TwitterConfig,
    pub rules: Vec<Rule>,
}

/// The Telegram bot's token.
#[derive(Clone)]
pub struct TelegramConfig {
    pub bot_token: String,
}

/// The Twitter application's consumer key and secret.
#[derive(Clone)]
pub struct TwitterConfig {
    pub key: String,
    pub secret: String,
}

/// `String::leak`: gives up ownership of the text for the rest of the
/// program. Trusted: the text stays the same.
#[verifier::external_body]
pub(crate) fn leak_string(s: String) -> (leaked: &'static str)
    ensures
        leaked@ == s@,
{
    s.leak()
}

} // verus!
