use motorbot::bot::{calm_down_reply, log_level_of, plugin_failure_text, startup_text, LogLevel};
use motorbot::patches_error::PatchesError;
use motorbot::plugin::{PluginError, PluginInfo};
use motorbot::plugins::coin_toss::CoinTossPlugin;
use motorbot::plugins::debug::{DebugCommand, DebugPlugin};
use motorbot::plugins::dice::DicePlugin;
use motorbot::plugins::jokes::JokesPlugin;
use motorbot::plugins::ping::PingPlugin;
use motorbot::plugins::points::{PointsCommand, PointsPlugin};
use motorbot::plugins::time::TimePlugin;
use motorbot::platform::Platform;
use motorbot::storage::{GuildConfig, GuildConfigKey, GuildConfigValue, UserScore};

#[test]
fn plugin_infos() {
    let i = PingPlugin::new().info();
    assert_eq!((i.name.as_str(), i.description.as_str(), i.version.as_str()), ("Ping", "A simple ping command", "0.1.0"));
    assert_eq!(CoinTossPlugin::new().info().name, "Coin Toss");
    assert_eq!(DicePlugin::new().info().description, "Dice roll command");
    assert_eq!(TimePlugin::new().info().description, "Tells the current server time");
    assert_eq!(DebugPlugin::new().info().name, "Debug");
    assert_eq!(PointsPlugin::new().info().description, "A user points system with upvote/downvote reactions");
    assert_eq!(JokesPlugin::new().info().description, "Shows a random joke at a set time every day");
}

#[test]
fn ping_replies_pong() {
    assert_eq!(PingPlugin::new().reply("ping").unwrap(), "Pong!");
    assert!(PingPlugin::new().reply("pong").is_none());
}

#[test]
fn coin_toss_replies_heads_or_tails() {
    assert_eq!(CoinTossPlugin::toss_reply(true), ":coin: **Heads**");
    assert_eq!(CoinTossPlugin::toss_reply(false), ":coin: **Tails**");
    for _ in 0..20 {
        let r = CoinTossPlugin::new().reply("heads-or-tails").unwrap();
        assert!(r == ":coin: **Heads**" || r == ":coin: **Tails**");
    }
    assert!(CoinTossPlugin::new().reply("roll").is_none());
}

#[test]
fn dice_sides_are_clamped() {
    assert_eq!(DicePlugin::sides(None), 6);
    assert_eq!(DicePlugin::sides(Some(1)), 2);
    assert_eq!(DicePlugin::sides(Some(-50)), 2);
    assert_eq!(DicePlugin::sides(Some(20)), 20);
    assert_eq!(DicePlugin::sides(Some(1000)), 100);
}

#[test]
fn dice_rolls_stay_on_the_die() {
    for _ in 0..200 {
        let n = DicePlugin::roll(6);
        assert!((1..=6).contains(&n));
    }
    assert_eq!(DicePlugin::roll(1), 1);
    assert_eq!(DicePlugin::roll_reply(4), ":game_die: You rolled a **4**");
    let r = DicePlugin::new().reply("roll", Some(2)).unwrap();
    assert!(r == ":game_die: You rolled a **1**" || r == ":game_die: You rolled a **2**");
    assert!(DicePlugin::new().reply("ping", None).is_none());
}

#[test]
fn time_replies() {
    assert_eq!(TimePlugin::time_reply("2024-01-02 03:04:05"), ":alarm_clock: The current time is: 2024-01-02 03:04:05");
    let r = TimePlugin::new().reply("time").unwrap();
    assert!(r.starts_with(":alarm_clock: The current time is: "));
    assert_eq!(r.len(), ":alarm_clock: The current time is: ".len() + 19);
    let t: Vec<char> = r[":alarm_clock: The current time is: ".len()..].chars().collect();
    for (i, c) in t.iter().enumerate() {
        match i {
            4 | 7 => assert_eq!(*c, '-'),
            10 => assert_eq!(*c, ' '),
            13 | 16 => assert_eq!(*c, ':'),
            _ => assert!(c.is_ascii_digit()),
        }
    }
    assert!(TimePlugin::new().reply("ping").is_none());
}

#[test]
fn debug_replies() {
    assert_eq!(DebugPlugin::command_of("whoami"), DebugCommand::WhoAmI);
    assert_eq!(DebugPlugin::command_of("version"), DebugCommand::Version);
    assert_eq!(DebugPlugin::command_of("plugins"), DebugCommand::Plugins);
    assert_eq!(DebugPlugin::command_of("events"), DebugCommand::Events);
    assert_eq!(DebugPlugin::command_of("x"), DebugCommand::Other);
    assert_eq!(DebugPlugin::version_reply("1.2.3"), "MotorBot version: v1.2.3");
    let infos = vec![PingPlugin::new().info(), PluginInfo::new("A", "b", "2")];
    assert_eq!(
        DebugPlugin::plugins_reply(&infos),
        "Loaded plugins:\n🧩 `v0.1.0` **Ping**: A simple ping command\n🧩 `v2` **A**: b"
    );
    assert_eq!(DebugPlugin::plugins_reply(&vec![]), "Loaded plugins:\n");
    assert_eq!(DebugPlugin::avatar_reply(42, Some("abc")), "https://cdn.discordapp.com/avatars/42/abc.png");
    assert_eq!(DebugPlugin::avatar_reply(42, None), "No avatar");
    assert_eq!(DebugPlugin::events_reply(7), "Events channel set to <#7>");
    let c = DebugPlugin::events_config(7);
    assert_eq!(*c.key(), GuildConfigKey::EventsChannel);
    assert_eq!(c.value_text(), "7");
    assert_eq!(
        DebugPlugin::unknown_reply(),
        "<:warn:1495130104613965994> **You've chosen... poorly.**\nPlease select a valid subcommand: `whoami`, `version`, `plugins`, or `events`."
    );
}

#[test]
fn reactions_move_points() {
    let up = Some(1494772872500088913u64);
    let down = Some(1494772826945617940u64);
    assert_eq!(PointsPlugin::reaction_points(up, true), 1);
    assert_eq!(PointsPlugin::reaction_points(up, false), -1);
    assert_eq!(PointsPlugin::reaction_points(down, true), -1);
    assert_eq!(PointsPlugin::reaction_points(down, false), 1);
    assert_eq!(PointsPlugin::reaction_points(Some(3), true), 0);
    assert_eq!(PointsPlugin::reaction_points(None, true), 0);
}

#[test]
fn reaction_added_then_removed_leaves_score() {
    let up = Some(1494772872500088913u64);
    let s = UserScore { user_id: 9, score: 10 };
    let after_add = PointsPlugin::score_after_reaction(&s, up, true);
    assert_eq!(after_add.score, 11);
    let after_remove = PointsPlugin::score_after_reaction(&after_add, up, false);
    assert_eq!(after_remove.score, 10);
    assert_eq!(after_remove.user_id, 9);
    let top = UserScore { user_id: 9, score: i32::MAX - 1 };
    let up_at_top = PointsPlugin::score_after_reaction(&top, up, true);
    assert_eq!(up_at_top.score, i32::MAX);
    assert_eq!(PointsPlugin::score_after_reaction(&up_at_top, up, false).score, i32::MAX - 1);
    let down = Some(1494772826945617940u64);
    let bottom = UserScore { user_id: 9, score: i32::MIN + 1 };
    let down_at_bottom = PointsPlugin::score_after_reaction(&bottom, down, true);
    assert_eq!(down_at_bottom.score, i32::MIN);
    assert_eq!(PointsPlugin::score_after_reaction(&down_at_bottom, down, false).score, i32::MIN + 1);
    assert_eq!(PointsPlugin::add_points(&s, 5).score, 15);
    assert_eq!(PointsPlugin::subtract_points(&s, 15).score, -5);
}

#[test]
fn vote_reactions_go_on_links_and_attachments() {
    let channels = vec![10, 20];
    assert!(PointsPlugin::votes_on_message(false, "see https://x", 10, &channels, 1, 2));
    assert!(PointsPlugin::votes_on_message(true, "plain", 20, &channels, 1, 2));
    assert!(!PointsPlugin::votes_on_message(false, "plain", 20, &channels, 1, 2));
    assert!(!PointsPlugin::votes_on_message(true, "http", 30, &channels, 1, 2));
    assert!(!PointsPlugin::votes_on_message(true, "http", 10, &channels, 2, 2));
    assert!(PointsPlugin::reaction_counts(20, &channels, 1, 2));
    assert!(!PointsPlugin::reaction_counts(20, &channels, 2, 2));
    assert!(!PointsPlugin::reaction_counts(5, &channels, 1, 2));
}

#[test]
fn points_channels_are_added_once() {
    let (once, added) = PointsPlugin::add_channel(vec![1], 2);
    assert!(added);
    assert_eq!(once, vec![1, 2]);
    let (twice, added_again) = PointsPlugin::add_channel(once.clone(), 2);
    assert!(!added_again);
    assert_eq!(twice, once);
    assert_eq!(PointsPlugin::channel_reply(2, true), "Channel <#2> has been added to the points system!");
    assert_eq!(PointsPlugin::channel_reply(2, false), "Channel <#2> is already part of the points system.");
    let c = PointsPlugin::channels_config(twice);
    assert_eq!(c.value_text(), "1,2");
    assert_eq!(PointsPlugin::channels_of(Some(c)), vec![1, 2]);
    assert_eq!(PointsPlugin::channels_of(None), Vec::<u64>::new());
    let single = GuildConfig::from_value(GuildConfigKey::PointsChannels, GuildConfigValue::ChannelId(4));
    assert_eq!(PointsPlugin::channels_of(Some(single)), Vec::<u64>::new());
}

#[test]
fn points_replies() {
    assert_eq!(PointsPlugin::command_of(None), PointsCommand::OwnScore);
    assert_eq!(PointsPlugin::command_of(Some("channel")), PointsCommand::Channel);
    assert_eq!(PointsPlugin::command_of(Some("user")), PointsCommand::User);
    assert_eq!(PointsPlugin::command_of(Some("other")), PointsCommand::Other);
    assert_eq!(PointsPlugin::score_reply("bob#1", -12), "<:pouch:1494773684295041256> bob#1's score is -12");
    assert_eq!(PointsPlugin::score_reply("amy", 0), "<:pouch:1494773684295041256> amy's score is 0");
    assert!(PointsPlugin::unknown_reply().ends_with("`user` or `channel`."));
}

#[test]
fn jokes_are_posted_in_joke_channels() {
    let configs = vec![
        Some(GuildConfig::from_value(GuildConfigKey::JokesChannel, GuildConfigValue::ChannelId(3))),
        None,
        Some(GuildConfig::from_value(GuildConfigKey::JokesChannel, GuildConfigValue::ChannelIds(vec![4]))),
        Some(GuildConfig::from_value(GuildConfigKey::JokesChannel, GuildConfigValue::ChannelId(5))),
    ];
    assert_eq!(JokesPlugin::joke_channels(&configs), vec![3, 5]);
    assert_eq!(
        JokesPlugin::joke_message("<:cat:1>", "01 May 2024", "\"Why?\"", "\"Because.\""),
        "## <:cat:1> Joke for 01 May 2024\n\"Why?\"\n\n||\"Because.\"||"
    );
    let all = [
        "<:goat:1494789527921889371>",
        "<:bunny:1494789525740851393>",
        "<:cat:1494789524415451266>",
        "<:frog:1494789522779537501>",
        "<:dog:1494789521089237076>",
    ];
    for _ in 0..20 {
        assert!(all.contains(&JokesPlugin::random_emoji()));
    }
    assert_eq!(
        JokesPlugin::channel_reply(8),
        "<:dog:1494789521089237076> Jokes will be sent to <#8> at the scheduled time"
    );
    assert!(JokesPlugin::is_channel_command("channel"));
    assert!(!JokesPlugin::is_channel_command("x"));
}

#[test]
fn first_joke_of_an_empty_response_is_refused() {
    let e = JokesPlugin::first_joke(&vec![]).unwrap_err();
    assert_eq!(e.message(), "Received an invalid response from an internal API: Empty joke array");
    let j = JokesPlugin::first_joke(&vec![("s".to_string(), "p".to_string()), ("t".to_string(), "q".to_string())]).unwrap();
    assert_eq!(j, ("s".to_string(), "p".to_string()));
}

#[test]
fn error_messages() {
    assert_eq!(PluginError::MissingUserId.message(), "Expected a UserId but got None");
    assert_eq!(PluginError::MissingChannelId.message(), "Expected a ChannelId but got None");
    assert_eq!(
        PluginError::MissingEnvironmentVariable { var_name: "RAPID_API_KEY".to_string() }.message(),
        "Missing environment variable: RAPID_API_KEY"
    );
    assert_eq!(PluginError::ExpectedGuild.message(), "ExpectedGuild");
    assert_eq!(PluginError::InvalidSubCommand.message(), "Expected a subcommand option but got an invalid value or none at all");
    assert_eq!(PatchesError::InvalidGameColor.message(), "Invalid game color provided");
    assert_eq!(
        PatchesError::FetchPatchNotesFailed { platform: Platform::Riot, game_id: "val".to_string() }.message(),
        "Failed to fetch patch notes for game 'val'on platform 'riot'"
    );
}

#[test]
fn bot_replies_and_settings() {
    assert_eq!(calm_down_reply("pls kys now", 12).unwrap(), "Calm down before you hurt yourself <@12>");
    assert!(calm_down_reply("keys", 12).is_none());
    assert_eq!(log_level_of("DEBUG"), LogLevel::Debug);
    assert_eq!(log_level_of("Warn"), LogLevel::Warn);
    assert_eq!(log_level_of("trace"), LogLevel::Trace);
    assert_eq!(log_level_of("error"), LogLevel::Error);
    assert_eq!(log_level_of("loud"), LogLevel::Info);
    assert_eq!(startup_text("0.3.0"), "<:lightning:1494777585874370600> MotorBot v0.3.0 reporting for duty!");
    assert_eq!(plugin_failure_text("Dice", "boom"), "*Dice*\nboom");
}

#[test]
fn joke_date_is_day_month_year() {
    let d = JokesPlugin::joke_date();
    let parts: Vec<&str> = d.split(' ').collect();
    assert_eq!(parts.len(), 3);
    assert_eq!(parts[0].len(), 2);
    assert!(parts[0].chars().all(|c| c.is_ascii_digit()));
    let months = [
        "January", "February", "March", "April", "May", "June", "July", "August", "September", "October",
        "November", "December",
    ];
    assert!(months.contains(&parts[1]));
    assert!(parts[2].len() >= 4 && parts[2].chars().all(|c| c.is_ascii_digit()));
}
