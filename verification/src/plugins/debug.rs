//! The `debug` command: who am I, the bot's version, the loaded plugins and
//! the events channel.
use vstd::prelude::*;
use crate::plugin::{channel_mention, channel_mention_text, info_is, poor_choice, poor_choice_text, PluginInfo};
use crate::storage::{ConfigValueView, GuildConfig, GuildConfigKey, GuildConfigValue};
use crate::text::{append_chars, chars_of, concat, concat_all, concat_views, dec_digits, join, join_spec, same_text, string_of, u64_to_text, views};

verus! {

/// MotorBot's debug command.
pub struct DebugPlugin;

/// The subcommands of `debug`.
#[derive(Debug, Clone, Copy, PartialEq, Eq, Structural)]
pub enum DebugCommand {
    WhoAmI,
    Version,
    Plugins,
    Events,
    Other,
}

pub open spec fn debug_command_of(name: Seq<char>) -> DebugCommand {
    if name == "whoami"@ {
        DebugCommand::WhoAmI
    } else if name == "version"@ {
        DebugCommand::Version
    } else if name == "plugins"@ {
        DebugCommand::Plugins
    } else if name == "events"@ {
        DebugCommand::Events
    } else {
        DebugCommand::Other
    }
}

/// One line of the plugin list.
pub open spec fn plugin_line(info: PluginInfo) -> Seq<char> {
    "🧩 `v"@ + info.version@ + "` **"@ + info.name@ + "**: "@ + info.description@
}

/// The reply listing the loaded plugins, one line each.
pub open spec fn plugins_text(infos: Seq<PluginInfo>) -> Seq<char> {
    "Loaded plugins:\n"@ + join_spec(infos.map_values(|i: PluginInfo| plugin_line(i)), "\n"@)
}

/// The avatar shown for a user: its CDN address, or "No avatar".
pub open spec fn avatar_text(user_id: u64, avatar: Option<Seq<char>>) -> Seq<char> {
    match avatar {
        Some(a) => "https://cdn.discordapp.com/avatars/"@ + dec_digits(user_id as nat) + "/"@ + a + ".png"@,
        None => "No avatar"@,
    }
}

impl DebugPlugin {
    pub fn new() -> (r: DebugPlugin) {
        DebugPlugin
    }

    pub fn info(&self) -> (r: PluginInfo)
        ensures
            info_is(r, "Debug"@, "MotorBot debug command"@, "0.1.0"@),
    {
        PluginInfo::new("Debug", "MotorBot debug command", "0.1.0")
    }

    /// The subcommand that a name selects.
    pub fn command_of(name: &str) -> (r: DebugCommand)
        ensures
            r == debug_command_of(name@),
    {
        if same_text(name, "whoami") {
            DebugCommand::WhoAmI
        } else if same_text(name, "version") {
            DebugCommand::Version
        } else if same_text(name, "plugins") {
            DebugCommand::Plugins
        } else if same_text(name, "events") {
            DebugCommand::Events
        } else {
            DebugCommand::Other
        }
    }

    /// The reply to `debug version`.
    pub fn version_reply(version: &str) -> (r: String)
        ensures
            r@ == "MotorBot version: v"@ + version@,
    {
        concat("MotorBot version: v", version)
    }

    /// One line of the plugin list.
    pub fn plugin_line(info: &PluginInfo) -> (r: Vec<char>)
        ensures
            r@ == plugin_line(*info),
    {
        let parts = vec!["🧩 `v", info.version.as_str(), "` **", info.name.as_str(), "**: ", info.description.as_str()];
        let s = concat_all(&parts);
        proof {
            reveal_with_fuel(concat_views, 7);
            assert(s@ =~= plugin_line(*info));
        }
        chars_of(s.as_str())
    }

    /// The reply to `debug plugins`.
    pub fn plugins_reply(infos: &Vec<PluginInfo>) -> (r: String)
        ensures
            r@ == plugins_text(infos@),
    {
        let mut lines: Vec<Vec<char>> = Vec::new();
        let mut i: usize = 0;
        while i < infos.len()
            invariant
                i <= infos@.len(),
                views(lines@) == infos@.take(i as int).map_values(|x: PluginInfo| plugin_line(x)),
            decreases infos@.len() - i,
        {
            let line = DebugPlugin::plugin_line(&infos[i]);
            let ghost before = views(lines@);
            lines.push(line);
            proof {
                assert(views(lines@) =~= before.push(plugin_line(infos@[i as int])));
                assert(infos@.take(i + 1).map_values(|x: PluginInfo| plugin_line(x)) =~= infos@.take(
                    i as int,
                ).map_values(|x: PluginInfo| plugin_line(x)).push(plugin_line(infos@[i as int])));
            }
            i = i + 1;
        }
        proof {
            assert(infos@.take(infos@.len() as int) =~= infos@);
        }
        let sep = chars_of("\n");
        let body = join(&lines, sep.as_slice());
        let mut out = chars_of("Loaded plugins:\n");
        append_chars(&mut out, body.as_slice());
        string_of(out.as_slice())
    }

    /// The avatar shown by `debug whoami`.
    pub fn avatar_reply(user_id: u64, avatar: Option<&str>) -> (r: String)
        ensures
            r@ == avatar_text(user_id, match avatar {
                Some(a) => Some(a@),
                None => None,
            }),
    {
        match avatar {
            Some(a) => {
                let id = u64_to_text(user_id);
                let parts = vec!["https://cdn.discordapp.com/avatars/", id.as_str(), "/", a, ".png"];
                let s = concat_all(&parts);
                proof {
                    reveal_with_fuel(concat_views, 6);
                }
                s
            },
            None => "No avatar".to_owned(),
        }
    }

    /// The configuration entry that `debug events` stores: the events channel.
    pub fn events_config(channel_id: u64) -> (r: GuildConfig)
        ensures
            r.key == GuildConfigKey::EventsChannel,
            r.value@ == ConfigValueView::ChannelId(channel_id),
    {
        GuildConfig::from_value(GuildConfigKey::EventsChannel, GuildConfigValue::ChannelId(channel_id))
    }

    /// The reply to `debug events`.
    pub fn events_reply(channel_id: u64) -> (r: String)
        ensures
            r@ == "Events channel set to "@ + channel_mention(channel_id),
    {
        let m = channel_mention_text(channel_id);
        concat("Events channel set to ", m.as_str())
    }

    /// The reply to an unknown subcommand of `debug`.
    pub fn unknown_reply() -> (r: String)
        ensures
            r@ == poor_choice_text("`whoami`, `version`, `plugins`, or `events`."@),
    {
        poor_choice("`whoami`, `version`, `plugins`, or `events`.")
    }
}

} // verus!
