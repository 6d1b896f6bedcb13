//! Twitter consumer credentials that live as long as the program.

use vstd::prelude::*;

use super::leak_string;

verus! {

/// The Twitter application's consumer key and secret.
#[derive(Clone, Copy)]
pub struct TwitterConfig {
    pub key: &'static str,
    pub secret: &'static str,
}

/// The same credentials as read from a file, owning their text.
pub struct OwnedTwitterConfig {
    pub key: String,
    pub secret: String,
}

impl OwnedTwitterConfig {
    /// Keeps the credentials for the rest of the program.
    pub fn into_static(self) -> (config: TwitterConfig)
        ensures
            config.key@ == self.key@,
            config.secret@ == self.secret@,
    {
        TwitterConfig { key: leak_string(self.key), secret: leak_string(self.secret) }
    }
}

} // verus!
