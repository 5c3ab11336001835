//! A plugin that answers "Pong!" to the `ping` command.
use vstd::prelude::*;
use crate::plugin::{info_is, PluginInfo};
use crate::text::same_text;

verus! {

/// A simple plugin that responds with "Pong!" when a user sends a "ping"
/// slash command.
pub struct PingPlugin;

impl PingPlugin {
    pub fn new() -> (r: PingPlugin) {
        PingPlugin
    }

    pub fn info(&self) -> (r: PluginInfo)
        ensures
            info_is(r, "Ping"@, "A simple ping command"@, "0.1.0"@),
    {
        PluginInfo::new("Ping", "A simple ping command", "0.1.0")
    }

    /// The reply to a command: "Pong!" for `ping`, none for other commands.
    pub fn reply(&self, command: &str) -> (r: Option<String>)
        ensures
            command@ == "ping"@ ==> (r matches Some(s) && s@ == "Pong!"@),
            command@ != "ping"@ ==> r is None,
    {
        if same_text(command, "ping") {
            Some("Pong!".to_owned())
        } else {
            None
        }
    }
}

} // verus!
