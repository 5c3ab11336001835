//! A plugin that tosses a coin on the `heads-or-tails` command.
use vstd::prelude::*;
use crate::plugin::{info_is, PluginInfo};
use crate::plugins::random::random_bool;
use crate::text::same_text;

verus! {

/// A simple plugin that responds with a random coin toss result when a user
/// sends a "heads-or-tails" slash command.
pub struct CoinTossPlugin;

/// The reply for a toss's outcome.
pub open spec fn toss_text(heads: bool) -> Seq<char> {
    if heads { ":coin: **Heads**"@ } else { ":coin: **Tails**"@ }
}

impl CoinTossPlugin {
    pub fn new() -> (r: CoinTossPlugin) {
        CoinTossPlugin
    }

    pub fn info(&self) -> (r: PluginInfo)
        ensures
            info_is(r, "Coin Toss"@, "A simple coin toss command"@, "0.1.0"@),
    {
        PluginInfo::new("Coin Toss", "A simple coin toss command", "0.1.0")
    }

    /// The reply for a toss's outcome.
    pub fn toss_reply(heads: bool) -> (r: String)
        ensures
            r@ == toss_text(heads),
    {
        if heads {
            ":coin: **Heads**".to_owned()
        } else {
            ":coin: **Tails**".to_owned()
        }
    }

    /// The reply to a command: a random toss for `heads-or-tails`, none for
    /// other commands.
    pub fn reply(&self, command: &str) -> (r: Option<String>)
        ensures
            command@ == "heads-or-tails"@ ==> (r matches Some(s) && (s@ == toss_text(true) || s@ == toss_text(false))),
            command@ != "heads-or-tails"@ ==> r is None,
    {
        if same_text(command, "heads-or-tails") {
            Some(CoinTossPlugin::toss_reply(random_bool()))
        } else {
            None
        }
    }
}

} // verus!
