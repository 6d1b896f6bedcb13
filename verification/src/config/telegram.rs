//! Telegram settings with a token that lives as long as the program.

use vstd::prelude::*;

use super::leak_string;

verus! {

/// A bot token and the chat it posts to.
#[derive(Clone, Copy)]
pub struct TelegramConfig {
    pub bot_token: &'static str,
    pub chat: i64,
}

/// The same settings as read from a file, owning the token.
pub struct OwnedTelegramConfig {
    pub bot_token: String,
    pub chat: i64,
}

impl OwnedTelegramConfig {
    /// Keeps the token for the rest of the program.
    pub fn into_static(self) -> (config: TelegramConfig)
        ensures
            config.bot_token@ == self.bot_token@,
            config.chat == self.chat,
    {
        TelegramConfig { bot_token: leak_string(self.bot_token), chat: self.chat }
    }
}

} // verus!
