//! A joke a day, posted in each guild's jokes channel.
use vstd::prelude::*;
use crate::plugin::{channel_mention, channel_mention_text, info_is, poor_choice, poor_choice_text, PluginError, PluginInfo};
use crate::plugins::random::random_in_range;
use crate::plugins::time::{day_month_year_text, local_time_text};
use crate::storage::{ConfigValueView, GuildConfig, GuildConfigKey, GuildConfigValue};
use crate::text::{concat, concat_all, concat_views, same_text};

verus! {

/// A plugin that shows a random joke at a set time every day.
pub struct JokesPlugin;

/// The emojis that a joke is announced with.
pub open spec fn joke_emojis() -> Seq<Seq<char>> {
    seq![
        "<:goat:1494789527921889371>"@,
        "<:bunny:1494789525740851393>"@,
        "<:cat:1494789524415451266>"@,
        "<:frog:1494789522779537501>"@,
        "<:dog:1494789521089237076>"@,
    ]
}

/// The message that posts a joke.
pub open spec fn joke_text(emoji: Seq<char>, date: Seq<char>, setup: Seq<char>, punchline: Seq<char>) -> Seq<char> {
    "## "@ + emoji + " Joke for "@ + date + "\n"@ + setup + "\n\n||"@ + punchline + "||"@
}

/// The jokes channels of the guilds, in order: the single channel of each
/// entry that holds one.
pub open spec fn joke_channels(configs: Seq<Option<ConfigValueView>>) -> Seq<u64>
    decreases configs.len(),
{
    if configs.len() == 0 {
        Seq::<u64>::empty()
    } else {
        let rest = joke_channels(configs.drop_last());
        match configs.last() {
            Some(ConfigValueView::ChannelId(id)) => rest.push(id),
            _ => rest,
        }
    }
}

pub open spec fn config_views(configs: Seq<Option<GuildConfig>>) -> Seq<Option<ConfigValueView>> {
    configs.map_values(|c: Option<GuildConfig>| match c {
        Some(g) => Some(g.value@),
        None => None,
    })
}

impl JokesPlugin {
    pub fn new() -> (r: JokesPlugin) {
        JokesPlugin
    }

    pub fn info(&self) -> (r: PluginInfo)
        ensures
            info_is(r, "Jokes"@, "Shows a random joke at a set time every day"@, "0.1.0"@),
    {
        PluginInfo::new("Jokes", "Shows a random joke at a set time every day", "0.1.0")
    }

    /// The channels that a joke is posted in, from each guild's stored
    /// jokes channel entry.
    pub fn joke_channels(configs: &Vec<Option<GuildConfig>>) -> (r: Vec<u64>)
        ensures
            r@ == joke_channels(config_views(configs@)),
    {
        let ghost cv = config_views(configs@);
        let mut r: Vec<u64> = Vec::new();
        let mut i: usize = 0;
        while i < configs.len()
            invariant
                i <= configs@.len(),
                cv == config_views(configs@),
                r@ == joke_channels(cv.take(i as int)),
            decreases configs@.len() - i,
        {
            proof {
                assert(cv.take(i + 1).drop_last() =~= cv.take(i as int));
                assert(cv.take(i + 1).last() == cv[i as int]);
            }
            match &configs[i] {
                Some(c) => match &c.value {
                    GuildConfigValue::ChannelId(id) => r.push(*id),
                    _ => {},
                },
                None => {},
            }
            i = i + 1;
        }
        proof {
            assert(cv.take(configs@.len() as int) =~= cv);
        }
        r
    }

    /// The emoji at a position of the list.
    pub fn emoji_at(i: usize) -> (r: &'static str)
        requires
            i < 5,
        ensures
            r@ == joke_emojis()[i as int],
    {
        match i {
            0 => "<:goat:1494789527921889371>",
            1 => "<:bunny:1494789525740851393>",
            2 => "<:cat:1494789524415451266>",
            3 => "<:frog:1494789522779537501>",
            _ => "<:dog:1494789521089237076>",
        }
    }

    /// A randomly chosen emoji of the list.
    pub fn random_emoji() -> (r: &'static str)
        ensures
            joke_emojis().contains(r@),
    {
        let i = random_in_range(0, 4);
        let e = JokesPlugin::emoji_at(i as usize);
        assert(joke_emojis()[i as int] == e@);
        e
    }

    /// Today's date as a joke is headed with: the local date written as
    /// `%d %B %Y` (a day, an English month name and a year).
    pub fn joke_date() -> (r: String)
        ensures
            day_month_year_text(r@),
    {
        match local_time_text("%d %B %Y") {
            Some(d) => d,
            None => String::new(),
        }
    }

    /// The message that posts a joke.
    pub fn joke_message(emoji: &str, date: &str, setup: &str, punchline: &str) -> (r: String)
        ensures
            r@ == joke_text(emoji@, date@, setup@, punchline@),
    {
        let parts = vec!["## ", emoji, " Joke for ", date, "\n", setup, "\n\n||", punchline, "||"];
        let s = concat_all(&parts);
        proof {
            reveal_with_fuel(concat_views, 10);
        }
        s
    }

    /// The setup and punchline of the first joke of an API response; an
    /// empty response is refused.
    pub fn first_joke(jokes: &Vec<(String, String)>) -> (r: Result<(String, String), PluginError>)
        ensures
            jokes@.len() == 0 <==> r is Err,
            r matches Ok(j) ==> j.0@ == jokes@[0].0@ && j.1@ == jokes@[0].1@,
            r matches Err(e) ==> e matches PluginError::InvalidInternalAPIResponse { reason }
                && reason@ == "Empty joke array"@,
    {
        if jokes.len() == 0 {
            Err(PluginError::InvalidInternalAPIResponse { reason: "Empty joke array".to_owned() })
        } else {
            Ok((jokes[0].0.as_str().to_owned(), jokes[0].1.as_str().to_owned()))
        }
    }

    /// The configuration entry that `jokes channel` stores.
    pub fn channel_config(channel_id: u64) -> (r: GuildConfig)
        ensures
            r.key == GuildConfigKey::JokesChannel,
            r.value@ == ConfigValueView::ChannelId(channel_id),
    {
        GuildConfig::from_value(GuildConfigKey::JokesChannel, GuildConfigValue::ChannelId(channel_id))
    }

    /// Whether a subcommand of `jokes` is `channel`.
    pub fn is_channel_command(name: &str) -> (r: bool)
        ensures
            r == (name@ == "channel"@),
    {
        same_text(name, "channel")
    }

    /// The reply to `jokes channel`.
    pub fn channel_reply(channel_id: u64) -> (r: String)
        ensures
            r@ == "<:dog:1494789521089237076> Jokes will be sent to "@ + channel_mention(channel_id)
                + " at the scheduled time"@,
    {
        let m = channel_mention_text(channel_id);
        let a = concat("<:dog:1494789521089237076> Jokes will be sent to ", m.as_str());
        concat(a.as_str(), " at the scheduled time")
    }

    /// The reply to an unknown subcommand of `jokes`.
    pub fn unknown_reply() -> (r: String)
        ensures
            r@ == poor_choice_text("`channel`."@),
    {
        poor_choice("`channel`.")
    }
}

} // verus!
