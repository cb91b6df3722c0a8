//! Answers of the bots endpoints.
use vstd::prelude::*;

use crate::response::Response;

verus! {

/// Answer of `bots.info`.
#[derive(Debug, Clone)]
pub struct BotsInfo {
    pub ok: bool,
    /// The bot, when it exists.
    pub bot: Option<Bot>,
}

impl Response for BotsInfo {
    open spec fn ok_spec(&self) -> bool {
        self.ok
    }

    open spec fn cursor_spec(&self) -> Option<Seq<char>> {
        None
    }

    fn is_ok(&self) -> (r: bool) {
        self.ok
    }

    fn next_cursor(&self) -> (r: Option<String>) {
        None
    }
}

/// An automated account.
#[derive(Debug, Clone)]
pub struct Bot {
    /// The name of the bot.
    pub name: String,
}

} // verus!
