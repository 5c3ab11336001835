//! A plugin that rolls a die on the `roll` command.
use vstd::prelude::*;
use crate::plugin::{info_is, PluginInfo};
use crate::plugins::random::random_in_range;
use crate::text::{concat, i64_to_text, int_text, same_text};

verus! {

/// A simple plugin that responds with a random dice roll when a user sends
/// a "roll" slash command.
pub struct DicePlugin;

/// The number of sides rolled: the requested number (6 when none is given),
/// clamped to between 2 and 100.
pub open spec fn sides_spec(requested: Option<i64>) -> i64 {
    let n = match requested {
        Some(n) => n,
        None => 6,
    };
    if n < 2 { 2 } else if n > 100 { 100 } else { n }
}

/// The reply announcing a roll.
pub open spec fn roll_text(n: int) -> Seq<char> {
    ":game_die: You rolled a **"@ + int_text(n) + "**"@
}

impl DicePlugin {
    pub fn new() -> (r: DicePlugin) {
        DicePlugin
    }

    pub fn info(&self) -> (r: PluginInfo)
        ensures
            info_is(r, "Dice"@, "Dice roll command"@, "0.1.0"@),
    {
        PluginInfo::new("Dice", "Dice roll command", "0.1.0")
    }

    /// The number of sides to roll for the `sides` option.
    pub fn sides(requested: Option<i64>) -> (r: i64)
        ensures
            r == sides_spec(requested),
            2 <= r <= 100,
    {
        let n = match requested {
            Some(n) => n,
            None => 6,
        };
        if n < 2 {
            2
        } else if n > 100 {
            100
        } else {
            n
        }
    }

    /// The reply announcing a roll.
    pub fn roll_reply(n: i64) -> (r: String)
        ensures
            r@ == roll_text(n as int),
    {
        let digits = i64_to_text(n);
        let a = concat(":game_die: You rolled a **", digits.as_str());
        concat(a.as_str(), "**")
    }

    /// Rolls a die with the given number of sides.
    pub fn roll(sides: i64) -> (r: i64)
        requires
            sides >= 1,
        ensures
            1 <= r <= sides,
    {
        random_in_range(1, sides)
    }

    /// The reply to a command: a roll of a die with the requested number of
    /// sides for `roll`, none for other commands.
    pub fn reply(&self, command: &str, requested_sides: Option<i64>) -> (r: Option<String>)
        ensures
            command@ == "roll"@ ==> (r matches Some(s) && exists|n: i64|
                1 <= n <= sides_spec(requested_sides) && s@ == #[trigger] roll_text(n as int)),
            command@ != "roll"@ ==> r is None,
    {
        if same_text(command, "roll") {
            let n = DicePlugin::roll(DicePlugin::sides(requested_sides));
            let s = DicePlugin::roll_reply(n);
            Some(s)
        } else {
            None
        }
    }
}

} // verus!
