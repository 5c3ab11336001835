use motorbot::patches_error::PatchesError;
use motorbot::platform::Platform;
use motorbot::plugins::patches::{GameData, GameRow, PatchNotes, PatchesCommand, PatchesPlugin};
use motorbot::riot::RiotNews;
use motorbot::steam::SteamNews;
use motorbot::storage::{GuildConfig, GuildConfigKey, GuildConfigValue};

fn game(guild: u64, name: &str, color: &str, news: Vec<&str>) -> GameData {
    GameData {
        id: "570".to_string(),
        guild,
        platform: Platform::Steam,
        news_items: news.into_iter().map(|s| s.to_string()).collect(),
        name: name.to_string(),
        thumbnail: "https://t/x.png".to_string(),
        color: color.to_string(),
    }
}

fn notes(url: &str, success: bool) -> PatchNotes {
    PatchNotes {
        title: "T".to_string(),
        content: "C".to_string(),
        url: url.to_string(),
        image: "I".to_string(),
        gid: "g1".to_string(),
        success,
    }
}

#[test]
fn new_game_is_validated_in_order() {
    let ok = PatchesPlugin::validate_new_game(Some("570"), Some("steam"), Some("Dota 2"), Some("https://a/b.png"), Some("#ff00aa")).unwrap();
    assert_eq!(ok.id, "570");
    assert_eq!(ok.platform, Platform::Steam);
    assert_eq!(ok.name, "Dota 2");
    assert_eq!(ok.thumbnail, "https://a/b.png");
    assert_eq!(ok.color, "FF00AA");
    let cases: Vec<(Option<&str>, Option<&str>, Option<&str>, Option<&str>, Option<&str>, &str)> = vec![
        (None, None, None, None, None, "InvalidGameId"),
        (Some("1"), None, Some("n"), Some("http"), Some("#000000"), "InvalidGamePlatform"),
        (Some("1"), Some("epic"), Some("n"), Some("http"), Some("#000000"), "InvalidGamePlatform"),
        (Some("1"), Some("riot"), None, Some("http"), Some("#000000"), "InvalidGameName"),
        (Some("1"), Some("riot"), Some("n"), None, Some("#000000"), "InvalidGameThumbnail"),
        (Some("1"), Some("riot"), Some("n"), Some("ftp://x"), Some("#000000"), "InvalidGameThumbnail"),
        (Some("1"), Some("riot"), Some("n"), Some("http://x"), None, "InvalidGameColor"),
        (Some("1"), Some("riot"), Some("n"), Some("http://x"), Some("000000"), "InvalidGameColor"),
        (Some("1"), Some("riot"), Some("n"), Some("http://x"), Some("#00000"), "InvalidGameColor"),
        (Some("1"), Some("riot"), Some("n"), Some("http://x"), Some("#000é"), "InvalidGameColor"),
        (Some("1"), Some("riot"), Some("n"), Some("http://x"), Some("#00000é"), "InvalidGameColor"),
    ];
    for (id, p, n, t, c, want) in cases {
        let e = PatchesPlugin::validate_new_game(id, p, n, t, c).err().unwrap();
        assert_eq!(format!("{:?}", e), want);
    }
    let two_byte = PatchesPlugin::validate_new_game(Some("1"), Some("riot"), Some("n"), Some("http://x"), Some("#0000é")).unwrap();
    assert_eq!(two_byte.color, "0000É");
}

#[test]
fn patches_commands() {
    assert_eq!(PatchesPlugin::command_of("channel"), PatchesCommand::Channel);
    assert_eq!(PatchesPlugin::command_of("list"), PatchesCommand::List);
    assert_eq!(PatchesPlugin::command_of("update"), PatchesCommand::Update);
    assert_eq!(PatchesPlugin::command_of("add"), PatchesCommand::Add);
    assert_eq!(PatchesPlugin::command_of("remove"), PatchesCommand::Remove);
    assert_eq!(PatchesPlugin::command_of("nope"), PatchesCommand::Other);
    assert_eq!(PatchesPlugin::added_reply("Dota 2"), "Dota 2 added to monitoring list");
    assert_eq!(PatchesPlugin::removed_reply("570"), "Game `570` removed from monitoring list");
    assert_eq!(PatchesPlugin::channel_reply(11), "Patch notes channel set to <#11>");
    assert_eq!(PatchesPlugin::update_reply(), "Update complete");
    assert_eq!(PatchesPlugin::no_options_reply(), "No subcommand options provided");
    assert!(PatchesPlugin::unknown_reply().ends_with("`channel`, `add`, `update`, `list` or `remove`"));
    assert_eq!(PatchesPlugin::new().info().name, "Patches");
    let c = PatchesPlugin::channel_config(11);
    assert_eq!(*c.key(), GuildConfigKey::PatchNotesChannel);
}

#[test]
fn monitoring_list() {
    assert_eq!(PatchesPlugin::list_reply(&vec![]), "No games are currently being monitored");
    let entries = vec![("Dota 2".to_string(), "570".to_string()), ("Valorant".to_string(), "val".to_string())];
    assert_eq!(PatchesPlugin::list_reply(&entries), "1. Dota 2 (570)\n2. Valorant (val)\n");
    let rows = vec![game(1, "One", "", vec![]), game(2, "Two", "", vec![]), game(2, "Later", "", vec![])];
    assert_eq!(PatchesPlugin::guild_game_name(&rows, 2), "Two");
    assert_eq!(PatchesPlugin::guild_game_name(&rows, 3), "Unknown Name");
}

#[test]
fn posting_decisions() {
    let g = game(1, "Dota 2", "FF0000", vec!["a", "b"]);
    assert!(!PatchesPlugin::needs_posting(&g.news_items, "b"));
    assert!(PatchesPlugin::needs_posting(&g.news_items, "c"));
    assert_eq!(PatchesPlugin::embed_color("FF0000"), 0xFF0000);
    assert_eq!(PatchesPlugin::embed_color("+1a"), 0x1a);
    assert_eq!(PatchesPlugin::embed_color("ZZ"), 0);
    assert_eq!(PatchesPlugin::embed_color(""), 0);
    assert_eq!(PatchesPlugin::embed_color("100000000"), 0);
    assert_eq!(PatchesPlugin::embed_color("FFFFFFFF"), u32::MAX);
    let config = Some(GuildConfig::from_value(GuildConfigKey::PatchNotesChannel, GuildConfigValue::ChannelId(99)));
    let plan = PatchesPlugin::plan_post(&notes("https://u", true), &g, config).unwrap();
    assert_eq!(plan.channel_id, 99);
    assert_eq!(plan.color, 0xFF0000);
    assert_eq!((plan.title.as_str(), plan.description.as_str(), plan.image.as_str()), ("T", "C", "I"));
    assert_eq!((plan.author.as_str(), plan.author_icon.as_str()), ("Dota 2", "https://t/x.png"));
    assert!(plan.link_button);
    let config = Some(GuildConfig::from_value(GuildConfigKey::PatchNotesChannel, GuildConfigValue::ChannelId(99)));
    assert!(!PatchesPlugin::plan_post(&notes("", true), &g, config).unwrap().link_button);
    let config = Some(GuildConfig::from_value(GuildConfigKey::PatchNotesChannel, GuildConfigValue::ChannelId(99)));
    assert!(PatchesPlugin::plan_post(&notes("u", false), &g, config).is_none());
    assert!(PatchesPlugin::plan_post(&notes("u", true), &g, None).is_none());
    assert_eq!(PatchesPlugin::patch_notes_channel(None), None);
}

#[test]
fn patch_notes_from_platforms() {
    let s = SteamNews { title: "a".into(), content: "b".into(), url: "c".into(), image: "d".into(), gid: "e".into() };
    let p = PatchNotes::from_steam("570", Some(s)).unwrap();
    assert!(p.success);
    assert_eq!((p.title.as_str(), p.gid.as_str()), ("a", "e"));
    let e = PatchNotes::from_steam("570", None).err().unwrap();
    assert_eq!(e.message(), "Failed to fetch patch notes for game '570'on platform 'steam'");
    let r = RiotNews { title: "t".into(), content: "c".into(), url: "u".into(), image: "i".into(), gid: "7".into() };
    assert_eq!(PatchNotes::from_riot("val", Some(r)).unwrap().url, "u");
    assert!(matches!(
        PatchNotes::from_riot("val", None),
        Err(PatchesError::FetchPatchNotesFailed { platform: Platform::Riot, .. })
    ));
}

#[test]
fn game_rows() {
    let row = GameRow { guild: "123".into(), platform: "riot".into(), name: "V".into(), thumbnail: "t".into(), color: "c".into() };
    let g = GameData::from_row("val", vec!["x".to_string()], row).unwrap();
    assert_eq!((g.id.as_str(), g.guild, g.platform), ("val", 123, Platform::Riot));
    assert_eq!(g.news_items, vec!["x".to_string()]);
    let row = GameRow { guild: "?".into(), platform: "steam".into(), name: "D".into(), thumbnail: "t".into(), color: "c".into() };
    assert_eq!(GameData::from_row("570", vec![], row).unwrap().guild, 0);
    let row = GameRow { guild: "1".into(), platform: "gog".into(), name: "D".into(), thumbnail: "t".into(), color: "c".into() };
    assert!(matches!(GameData::from_row("570", vec![], row), Err(PatchesError::InvalidGamePlatform)));
    let d = GameData::default();
    assert_eq!((d.id.as_str(), d.guild, d.platform), ("", 0, Platform::Steam));
}

#[test]
fn sent_notes_are_recorded() {
    let n = notes("https://x", true);
    assert_eq!(PatchesPlugin::news_to_record(true, &n), Some(n.gid.clone()));
    assert_eq!(PatchesPlugin::news_to_record(false, &n), None);
    let stored = vec!["1".to_string(), n.gid.clone()];
    assert!(!PatchesPlugin::needs_posting(&stored, &n.gid));
}
