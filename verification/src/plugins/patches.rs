//! The patches plugin: the games it monitors, the validation of new games,
//! which patch notes are posted where, and its replies.
use vstd::prelude::*;
use crate::patches_error::PatchesError;
use crate::platform::{platform_of_name, Platform};
use crate::plugin::{channel_mention, channel_mention_text, info_is, poor_choice, poor_choice_text, PluginInfo};
use crate::riot::RiotNews;
use crate::steam::{utf8_len, utf8_len_exceeds, SteamNews};
use crate::storage::{
    excess_news_items_spec, kept_news_items, news_rows_kept, parse_u64, parse_u64_spec, ConfigValueView, GuildConfig, GuildConfigKey,
    GuildConfigValue,
};
use crate::text::{
    append_chars, chars_of, concat, concat_all, concat_views, dec_digits, int_text, parse_unsigned,
    parse_unsigned_chars, same_text, starts_with, starts_with_spec, string_of, to_uppercase,
    u64_to_text, uppercase_of,
};

verus! {

/// Patch notes fetched for a game, ready to post.
pub struct PatchNotes {
    pub title: String,
    pub content: String,
    pub url: String,
    pub image: String,
    pub gid: String,
    pub success: bool,
}

pub open spec fn patch_notes_fields(p: PatchNotes) -> (Seq<char>, Seq<char>, Seq<char>, Seq<char>, Seq<char>) {
    (p.title@, p.content@, p.url@, p.image@, p.gid@)
}

impl PatchNotes {
    /// The patch notes of a Steam game from what Steam gave; refused when
    /// nothing could be fetched.
    pub fn from_steam(game_id: &str, notes: Option<SteamNews>) -> (r: Result<PatchNotes, PatchesError>)
        ensures
            notes is None <==> r is Err,
            r matches Ok(p) ==> p.success && patch_notes_fields(p) == (
                notes->0.title@,
                notes->0.content@,
                notes->0.url@,
                notes->0.image@,
                notes->0.gid@,
            ),
            r matches Err(e) ==> e matches PatchesError::FetchPatchNotesFailed { platform, game_id: g }
                && platform == Platform::Steam && g@ == game_id@,
    {
        match notes {
            Some(n) => Ok(PatchNotes {
                title: n.title,
                content: n.content,
                url: n.url,
                image: n.image,
                gid: n.gid,
                success: true,
            }),
            None => Err(PatchesError::FetchPatchNotesFailed {
                platform: Platform::Steam,
                game_id: game_id.to_owned(),
            }),
        }
    }

    /// The patch notes of a Riot game from what Riot gave; refused when
    /// nothing could be fetched.
    pub fn from_riot(game_id: &str, notes: Option<RiotNews>) -> (r: Result<PatchNotes, PatchesError>)
        ensures
            notes is None <==> r is Err,
            r matches Ok(p) ==> p.success && patch_notes_fields(p) == (
                notes->0.title@,
                notes->0.content@,
                notes->0.url@,
                notes->0.image@,
                notes->0.gid@,
            ),
            r matches Err(e) ==> e matches PatchesError::FetchPatchNotesFailed { platform, game_id: g }
                && platform == Platform::Riot && g@ == game_id@,
    {
        match notes {
            Some(n) => Ok(PatchNotes {
                title: n.title,
                content: n.content,
                url: n.url,
                image: n.image,
                gid: n.gid,
                success: true,
            }),
            None => Err(PatchesError::FetchPatchNotesFailed {
                platform: Platform::Riot,
                game_id: game_id.to_owned(),
            }),
        }
    }
}

/// A game monitored for a guild, with the ids of the news already posted
/// for it (only the latest few are kept).
pub struct GameData {
    /// The unique ID for the game.
    pub id: String,
    /// The guild that the game is monitored for.
    pub guild: u64,
    /// The platform the game is available on.
    pub platform: Platform,
    /// The ids of the news items already posted.
    pub news_items: Vec<String>,
    /// The friendly name of the game.
    pub name: String,
    /// The URL for the game's logo image.
    pub thumbnail: String,
    /// The embed color, a hex color code such as "FF0000".
    pub color: String,
}

impl Default for GameData {
    fn default() -> (r: GameData)
        ensures
            r.id@ == Seq::<char>::empty(),
            r.guild == 0,
            r.platform == Platform::Steam,
            r.news_items@.len() == 0,
            r.name@ == Seq::<char>::empty(),
            r.thumbnail@ == Seq::<char>::empty(),
            r.color@ == Seq::<char>::empty(),
    {
        GameData {
            id: String::new(),
            guild: 0,
            platform: Platform::Steam,
            news_items: Vec::new(),
            name: String::new(),
            thumbnail: String::new(),
            color: String::new(),
        }
    }
}

/// A row of the games table: the guild and platform as stored texts, and
/// the game's name, thumbnail and color.
pub struct GameRow {
    pub guild: String,
    pub platform: String,
    pub name: String,
    pub thumbnail: String,
    pub color: String,
}

impl GameData {
    /// The game data of a stored row: the guild is read as a number (0 when
    /// it is not one); a row whose platform is not a known platform is refused.
    pub fn from_row(game_id: &str, news_items: Vec<String>, row: GameRow) -> (r: Result<GameData, PatchesError>)
        ensures
            platform_of_name(row.platform@) is None <==> r is Err,
            r matches Err(e) ==> e is InvalidGamePlatform,
            r matches Ok(g) ==> {
                &&& g.id@ == game_id@
                &&& Some(g.platform) == platform_of_name(row.platform@)
                &&& g.guild == match parse_u64_spec(row.guild@) {
                    Some(n) => n,
                    None => 0,
                }
                &&& g.news_items@ == news_items@
                &&& g.name@ == row.name@
                &&& g.thumbnail@ == row.thumbnail@
                &&& g.color@ == row.color@
            },
    {
        let platform = match Platform::from_str(row.platform.as_str()) {
            Ok(p) => p,
            Err(e) => return Err(e),
        };
        let g = chars_of(row.guild.as_str());
        let guild = match parse_u64(g.as_slice()) {
            Some(n) => n,
            None => 0,
        };
        Ok(GameData {
            id: game_id.to_owned(),
            guild,
            platform,
            news_items,
            name: row.name,
            thumbnail: row.thumbnail,
            color: row.color,
        })
    }
}

/// A game to add to the monitoring list, as validated from the command.
pub struct NewGame {
    pub id: String,
    pub platform: Platform,
    pub name: String,
    pub thumbnail: String,
    pub color: String,
}

pub open spec fn opt_str(o: Option<&str>) -> Option<Seq<char>> {
    match o {
        Some(s) => Some(s@),
        None => None,
    }
}

/// Whether a color option is a `#` followed by what makes seven bytes.
pub open spec fn color_ok(color: Seq<char>) -> bool {
    starts_with_spec(color, "#"@) && utf8_len(color) == 7
}

/// The check that `patches add` makes, in order: the id, the platform (given
/// and valid), the name, the thumbnail (given and starting with `http`), the
/// color (given, `#` and seven bytes); the first that fails gives the error.
pub open spec fn new_game_error(
    id: Option<Seq<char>>,
    platform: Option<Seq<char>>,
    name: Option<Seq<char>>,
    thumbnail: Option<Seq<char>>,
    color: Option<Seq<char>>,
) -> Option<PatchesError> {
    if id is None {
        Some(PatchesError::InvalidGameId)
    } else if platform is None || platform_of_name(platform->0) is None {
        Some(PatchesError::InvalidGamePlatform)
    } else if name is None {
        Some(PatchesError::InvalidGameName)
    } else if thumbnail is None || !starts_with_spec(thumbnail->0, "http"@) {
        Some(PatchesError::InvalidGameThumbnail)
    } else if color is None || !color_ok(color->0) {
        Some(PatchesError::InvalidGameColor)
    } else {
        None
    }
}

/// The subcommands of `patches`.
#[derive(Debug, Clone, Copy, PartialEq, Eq, Structural)]
pub enum PatchesCommand {
    Channel,
    List,
    Update,
    Add,
    Remove,
    Other,
}

pub open spec fn patches_command_of(name: Seq<char>) -> PatchesCommand {
    if name == "channel"@ {
        PatchesCommand::Channel
    } else if name == "list"@ {
        PatchesCommand::List
    } else if name == "update"@ {
        PatchesCommand::Update
    } else if name == "add"@ {
        PatchesCommand::Add
    } else if name == "remove"@ {
        PatchesCommand::Remove
    } else {
        PatchesCommand::Other
    }
}

/// The lines of the monitoring list: `n. name (id)` for the n-th game.
pub open spec fn list_lines(entries: Seq<(Seq<char>, Seq<char>)>) -> Seq<char>
    decreases entries.len(),
{
    if entries.len() == 0 {
        Seq::<char>::empty()
    } else {
        let e = entries.last();
        list_lines(entries.drop_last()) + int_text(entries.len() as int) + ". "@ + e.0 + " ("@ + e.1 + ")\n"@
    }
}

/// The reply to `patches list`.
pub open spec fn list_text(entries: Seq<(Seq<char>, Seq<char>)>) -> Seq<char> {
    if entries.len() == 0 {
        "No games are currently being monitored"@
    } else {
        list_lines(entries)
    }
}

/// The name that a guild gave a game: that of its first row for the guild,
/// or "Unknown Name".
pub open spec fn guild_game_name(rows: Seq<(u64, Seq<char>)>, guild: u64) -> Seq<char>
    decreases rows.len(),
{
    if rows.len() == 0 {
        "Unknown Name"@
    } else if rows[0].0 == guild {
        rows[0].1
    } else {
        guild_game_name(rows.drop_first(), guild)
    }
}

/// The embed color of a game: its color code read as hexadecimal
/// (`u32::from_str_radix(color, 16)`), 0 when that fails.
pub open spec fn embed_color(color: Seq<char>) -> u32 {
    match parse_unsigned(color, 16, u32::MAX as nat) {
        Some(n) => n as u32,
        None => 0,
    }
}

/// A single-channel entry's channel; none for a missing entry or a list.
pub open spec fn single_channel(config: Option<ConfigValueView>) -> Option<u64> {
    match config {
        Some(ConfigValueView::ChannelId(id)) => Some(id),
        _ => None,
    }
}

/// How patch notes are posted for a guild: the channel, and the embed's
/// title, description, color, image, link, author and author icon, and
/// whether it has a "Patch Notes" link button.
pub struct PostPlan {
    pub channel_id: u64,
    pub title: String,
    pub description: String,
    pub color: u32,
    pub image: String,
    pub url: String,
    pub author: String,
    pub author_icon: String,
    pub link_button: bool,
}

/// The library part of the patches plugin.
pub struct PatchesPlugin;

impl PatchesPlugin {
    pub fn new() -> (r: PatchesPlugin) {
        PatchesPlugin
    }

    pub fn info(&self) -> (r: PluginInfo)
        ensures
            info_is(r, "Patches"@, "Provides information about the latest patches for various games"@, "0.1.0"@),
    {
        PluginInfo::new("Patches", "Provides information about the latest patches for various games", "0.1.0")
    }

    /// The subcommand that a name selects.
    pub fn command_of(name: &str) -> (r: PatchesCommand)
        ensures
            r == patches_command_of(name@),
    {
        if same_text(name, "channel") {
            PatchesCommand::Channel
        } else if same_text(name, "list") {
            PatchesCommand::List
        } else if same_text(name, "update") {
            PatchesCommand::Update
        } else if same_text(name, "add") {
            PatchesCommand::Add
        } else if same_text(name, "remove") {
            PatchesCommand::Remove
        } else {
            PatchesCommand::Other
        }
    }

    /// Whether a color option is a `#` followed by what makes seven bytes.
    pub fn color_ok(color: &str) -> (r: bool)
        ensures
            r == color_ok(color@),
    {
        let cs = chars_of(color);
        starts_with(color, "#") && utf8_len_exceeds(cs.as_slice(), 6) && !utf8_len_exceeds(cs.as_slice(), 7)
    }

    /// Validates the options of `patches add`; the stored color is the code
    /// after the `#`, in upper case.
    pub fn validate_new_game(
        id: Option<&str>,
        platform: Option<&str>,
        name: Option<&str>,
        thumbnail: Option<&str>,
        color: Option<&str>,
    ) -> (r: Result<NewGame, PatchesError>)
        ensures
            ({
                let err = new_game_error(opt_str(id), opt_str(platform), opt_str(name), opt_str(thumbnail), opt_str(color));
                &&& (r is Err <==> err is Some)
                &&& (r matches Err(e) ==> Some(e) == err)
                &&& (r matches Ok(g) ==> {
                    &&& g.id@ == id->0@
                    &&& Some(g.platform) == platform_of_name(platform->0@)
                    &&& g.name@ == name->0@
                    &&& g.thumbnail@ == thumbnail->0@
                    &&& g.color@ == uppercase_of(color->0@.drop_first())
                })
            }),
    {
        let id = match id {
            Some(i) => i,
            None => return Err(PatchesError::InvalidGameId),
        };
        let platform = match platform {
            Some(p) => p,
            None => return Err(PatchesError::InvalidGamePlatform),
        };
        let platform = match Platform::from_str(platform) {
            Ok(p) => p,
            Err(e) => return Err(e),
        };
        let name = match name {
            Some(n) => n,
            None => return Err(PatchesError::InvalidGameName),
        };
        let thumbnail = match thumbnail {
            Some(t) => t,
            None => return Err(PatchesError::InvalidGameThumbnail),
        };
        if !starts_with(thumbnail, "http") {
            return Err(PatchesError::InvalidGameThumbnail);
        }
        let color = match color {
            Some(c) => c,
            None => return Err(PatchesError::InvalidGameColor),
        };
        if !PatchesPlugin::color_ok(color) {
            return Err(PatchesError::InvalidGameColor);
        }
        let cs = chars_of(color);
        let mut code: Vec<char> = Vec::new();
        let mut k: usize = 1;
        while k < cs.len()
            invariant
                1 <= k <= cs@.len(),
                code@ == cs@.subrange(1, k as int),
            decreases cs@.len() - k,
        {
            code.push(cs[k]);
            proof {
                assert(cs@.subrange(1, k as int).push(cs@[k as int]) =~= cs@.subrange(1, k + 1));
            }
            k = k + 1;
        }
        proof {
            assert(code@ =~= color@.drop_first());
        }
        let code = string_of(code.as_slice());
        let upper = to_uppercase(code.as_str());
        Ok(NewGame {
            id: id.to_owned(),
            platform,
            name: name.to_owned(),
            thumbnail: thumbnail.to_owned(),
            color: upper,
        })
    }

    /// The reply once a game is added.
    pub fn added_reply(name: &str) -> (r: String)
        ensures
            r@ == name@ + " added to monitoring list"@,
    {
        concat(name, " added to monitoring list")
    }

    /// The reply once a game is removed.
    pub fn removed_reply(id: &str) -> (r: String)
        ensures
            r@ == "Game `"@ + id@ + "` removed from monitoring list"@,
    {
        let a = concat("Game `", id);
        concat(a.as_str(), "` removed from monitoring list")
    }

    /// The configuration entry that `patches channel` stores.
    pub fn channel_config(channel_id: u64) -> (r: GuildConfig)
        ensures
            r.key == GuildConfigKey::PatchNotesChannel,
            r.value@ == ConfigValueView::ChannelId(channel_id),
    {
        GuildConfig::from_value(GuildConfigKey::PatchNotesChannel, GuildConfigValue::ChannelId(channel_id))
    }

    /// The reply to `patches channel`.
    pub fn channel_reply(channel_id: u64) -> (r: String)
        ensures
            r@ == "Patch notes channel set to "@ + channel_mention(channel_id),
    {
        let m = channel_mention_text(channel_id);
        concat("Patch notes channel set to ", m.as_str())
    }

    /// The reply to `patches channel` without its options.
    pub fn no_options_reply() -> (r: String)
        ensures
            r@ == "No subcommand options provided"@,
    {
        "No subcommand options provided".to_owned()
    }

    /// The reply once an update has run.
    pub fn update_reply() -> (r: String)
        ensures
            r@ == "Update complete"@,
    {
        "Update complete".to_owned()
    }

    /// The reply to an unknown subcommand of `patches`.
    pub fn unknown_reply() -> (r: String)
        ensures
            r@ == poor_choice_text("`channel`, `add`, `update`, `list` or `remove`"@),
    {
        poor_choice("`channel`, `add`, `update`, `list` or `remove`")
    }

    /// The name that a guild gave a game, from the game's rows.
    pub fn guild_game_name(rows: &Vec<GameData>, guild: u64) -> (r: String)
        ensures
            r@ == guild_game_name(rows@.map_values(|g: GameData| (g.guild, g.name@)), guild),
    {
        let ghost rv = rows@.map_values(|g: GameData| (g.guild, g.name@));
        proof {
            assert(rv.skip(0) =~= rv);
        }
        let mut i: usize = 0;
        while i < rows.len()
            invariant
                i <= rows@.len(),
                rv == rows@.map_values(|g: GameData| (g.guild, g.name@)),
                guild_game_name(rv, guild) == guild_game_name(rv.skip(i as int), guild),
            decreases rows@.len() - i,
        {
            proof {
                assert(rv.skip(i as int)[0] == rv[i as int]);
                assert(rv.skip(i as int).drop_first() =~= rv.skip(i + 1));
            }
            if rows[i].guild == guild {
                return rows[i].name.as_str().to_owned();
            }
            i = i + 1;
        }
        proof {
            assert(rv.skip(i as int).len() == 0);
        }
        "Unknown Name".to_owned()
    }

    /// The reply to `patches list`, from each monitored game's name and id.
    pub fn list_reply(entries: &Vec<(String, String)>) -> (r: String)
        ensures
            r@ == list_text(entries@.map_values(|e: (String, String)| (e.0@, e.1@))),
    {
        let ghost ev = entries@.map_values(|e: (String, String)| (e.0@, e.1@));
        if entries.len() == 0 {
            return "No games are currently being monitored".to_owned();
        }
        let mut out: Vec<char> = Vec::new();
        let mut i: usize = 0;
        while i < entries.len()
            invariant
                i <= entries@.len(),
                ev == entries@.map_values(|e: (String, String)| (e.0@, e.1@)),
                out@ == list_lines(ev.take(i as int)),
            decreases entries@.len() - i,
        {
            let count = u64_to_text((i as u64) + 1);
            let parts = vec![count.as_str(), ". ", entries[i].0.as_str(), " (", entries[i].1.as_str(), ")\n"];
            let line = concat_all(&parts);
            let lc = chars_of(line.as_str());
            let ghost before = out@;
            append_chars(&mut out, lc.as_slice());
            proof {
                reveal_with_fuel(concat_views, 7);
                assert(ev.take(i + 1).drop_last() =~= ev.take(i as int));
                assert(ev.take(i + 1).last() == ev[i as int]);
                assert(int_text((i + 1) as int) == dec_digits((i + 1) as nat));
                assert(out@ =~= list_lines(ev.take(i + 1)));
            }
            i = i + 1;
        }
        proof {
            assert(ev.take(entries@.len() as int) =~= ev);
        }
        string_of(out.as_slice())
    }

    /// Whether patch notes still need posting: their id is not among the
    /// ids already posted.
    pub fn needs_posting(news_items: &Vec<String>, gid: &str) -> (r: bool)
        ensures
            r == !news_items@.map_values(|s: String| s@).contains(gid@),
    {
        let ghost nv = news_items@.map_values(|s: String| s@);
        let mut i: usize = 0;
        while i < news_items.len()
            invariant
                i <= news_items@.len(),
                nv == news_items@.map_values(|s: String| s@),
                forall|j: int| 0 <= j < i ==> nv[j] != gid@,
            decreases news_items@.len() - i,
        {
            if same_text(news_items[i].as_str(), gid) {
                assert(nv[i as int] == gid@);
                return false;
            }
            i = i + 1;
        }
        true
    }

    /// The channel that patch notes are posted in, from the stored entry.
    pub fn patch_notes_channel(config: Option<GuildConfig>) -> (r: Option<u64>)
        ensures
            r == single_channel(match config {
                Some(c) => Some(c.value@),
                None => None,
            }),
    {
        match config {
            Some(c) => match c.value {
                GuildConfigValue::ChannelId(id) => Some(id),
                _ => None,
            },
            None => None,
        }
    }

    /// The embed color of a game's color code.
    pub fn embed_color(color: &str) -> (r: u32)
        ensures
            r == embed_color(color@),
    {
        let cs = chars_of(color);
        match parse_unsigned_chars(cs.as_slice(), 16, 0xFFFF_FFFFu64) {
            Some(n) => n as u32,
            None => 0,
        }
    }

    /// How patch notes are posted for a game's guild: nowhere when they were
    /// not fetched or the guild has no patch notes channel.
    pub fn plan_post(notes: &PatchNotes, game: &GameData, config: Option<GuildConfig>) -> (r: Option<PostPlan>)
        ensures
            ({
                let channel = single_channel(match config {
                    Some(c) => Some(c.value@),
                    None => None,
                });
                &&& (r is Some <==> (notes.success && channel is Some))
                &&& (r matches Some(p) ==> {
                    &&& p.channel_id == channel->0
                    &&& p.title@ == notes.title@
                    &&& p.description@ == notes.content@
                    &&& p.color == embed_color(game.color@)
                    &&& p.image@ == notes.image@
                    &&& p.url@ == notes.url@
                    &&& p.author@ == game.name@
                    &&& p.author_icon@ == game.thumbnail@
                    &&& p.link_button == (notes.url@.len() > 0)
                })
            }),
    {
        if !notes.success {
            return None;
        }
        let channel_id = match PatchesPlugin::patch_notes_channel(config) {
            Some(c) => c,
            None => return None,
        };
        Some(PostPlan {
            channel_id,
            title: notes.title.as_str().to_owned(),
            description: notes.content.as_str().to_owned(),
            color: PatchesPlugin::embed_color(game.color.as_str()),
            image: notes.image.as_str().to_owned(),
            url: notes.url.as_str().to_owned(),
            author: game.name.as_str().to_owned(),
            author_icon: game.thumbnail.as_str().to_owned(),
            link_button: PatchesPlugin::has_link_button(notes.url.as_str()),
        })
    }

    /// The id to record as posted after patch notes were sent: the notes'
    /// id when the message went out, none when sending failed (so that the
    /// notes are tried again on the next update).
    pub fn news_to_record(sent_ok: bool, notes: &PatchNotes) -> (r: Option<String>)
        ensures
            r is Some <==> sent_ok,
            r matches Some(g) ==> g@ == notes.gid@,
    {
        if sent_ok {
            Some(notes.gid.as_str().to_owned())
        } else {
            None
        }
    }

    /// Whether the posted notes get a "Patch Notes" link button: only when
    /// they have a link.
    pub fn has_link_button(url: &str) -> (r: bool)
        ensures
            r == (url@.len() > 0),
    {
        let cs = chars_of(url);
        cs.len() > 0
    }
}

/// Once patch notes are recorded as posted for a game, they are not posted
/// again. Recording appends a row, so the game's rows, oldest first, end with
/// the notes' id; after the rows that `news_rows_to_delete` names are deleted,
/// the ids left (at most five) still hold it, so `needs_posting` answers
/// `false` for it on the next update.
pub proof fn lemma_recorded_notes_not_reposted(rows: Seq<(i64, Seq<char>)>, gid: Seq<char>)
    requires
        rows.len() > 0,
        rows.last().1 == gid,
    ensures
        news_rows_kept(rows).map_values(|p: (i64, Seq<char>)| p.1).contains(gid),
        news_rows_kept(rows).len() <= kept_news_items(),
        rows.take(excess_news_items_spec(rows.len() as int)) + news_rows_kept(rows) == rows,
{
    let kept = news_rows_kept(rows);
    let ids = kept.map_values(|p: (i64, Seq<char>)| p.1);
    assert(kept[kept.len() - 1] == rows[rows.len() - 1]);
    assert(ids[ids.len() - 1] == gid);
    assert(rows.take(excess_news_items_spec(rows.len() as int)) + kept =~= rows);
}

} // verus!
