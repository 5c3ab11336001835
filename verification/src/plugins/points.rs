//! The points system: vote reactions on links and attachments in chosen
//! channels, and the scores they add up to.
use vstd::prelude::*;
use crate::plugin::{channel_mention, channel_mention_text, info_is, poor_choice, poor_choice_text, PluginInfo};
use crate::storage::{ConfigValueView, GuildConfig, GuildConfigKey, GuildConfigValue, UserScore};
use crate::text::{
    concat, concat_all, concat_views, contains_spec, contains_text, i64_to_text, int_text, occurs_at, same_text,
};

verus! {

/// A plugin that creates a user points system. Users can check their own
/// points or someone else's points using the "points" slash command, and
/// channels can be configured to add vote reactions to messages.
pub struct PointsPlugin;

/// The emoji id of the upvote reaction.
pub open spec fn upvote_emoji() -> u64 { 1494772872500088913 }

/// The emoji id of the downvote reaction.
pub open spec fn downvote_emoji() -> u64 { 1494772826945617940 }

/// What a reaction does to the score of the message's author: an upvote
/// gives a point and a downvote takes one when added; removing either undoes
/// that; any other emoji does nothing.
pub open spec fn reaction_points(emoji: Option<u64>, added: bool) -> int {
    match emoji {
        Some(id) => if id == upvote_emoji() {
            if added { 1 } else { -1 }
        } else if id == downvote_emoji() {
            if added { -1 } else { 1 }
        } else {
            0
        },
        None => 0,
    }
}

/// Whether a message gets the vote reactions: it has an attachment or a
/// link, it is in a points channel, and the bot did not write it.
pub open spec fn votes_on_message(
    has_attachments: bool,
    content: Seq<char>,
    channel_id: u64,
    points_channels: Seq<u64>,
    author_id: u64,
    bot_id: u64,
) -> bool {
    &&& (has_attachments || contains_spec(content, "http"@))
    &&& points_channels.contains(channel_id)
    &&& author_id != bot_id
}

/// Whether a reaction counts towards a score: it is in a points channel and
/// the bot did not make it.
pub open spec fn reaction_counts(channel_id: u64, points_channels: Seq<u64>, user_id: u64, bot_id: u64) -> bool {
    points_channels.contains(channel_id) && user_id != bot_id
}

/// The points channels once a channel is named: appended unless it is
/// there already.
pub open spec fn channels_with(channels: Seq<u64>, channel_id: u64) -> Seq<u64> {
    if channels.contains(channel_id) {
        channels
    } else {
        channels.push(channel_id)
    }
}

/// The subcommands of `points`.
#[derive(Debug, Clone, Copy, PartialEq, Eq, Structural)]
pub enum PointsCommand {
    /// No option: the caller's own score.
    OwnScore,
    /// `channel`: add a points channel.
    Channel,
    /// `user`: another user's score.
    User,
    /// Any other option.
    Other,
}

pub open spec fn points_command_of(first_option: Option<Seq<char>>) -> PointsCommand {
    match first_option {
        None => PointsCommand::OwnScore,
        Some(n) => if n == "channel"@ {
            PointsCommand::Channel
        } else if n == "user"@ {
            PointsCommand::User
        } else {
            PointsCommand::Other
        },
    }
}

/// The reply showing a score.
pub open spec fn score_text(username: Seq<char>, score: int) -> Seq<char> {
    "<:pouch:1494773684295041256> "@ + username + "'s score is "@ + int_text(score)
}

impl PointsPlugin {
    pub fn new() -> (r: PointsPlugin) {
        PointsPlugin
    }

    pub fn info(&self) -> (r: PluginInfo)
        ensures
            info_is(r, "Points"@, "A user points system with upvote/downvote reactions"@, "0.1.0"@),
    {
        PluginInfo::new("Points", "A user points system with upvote/downvote reactions", "0.1.0")
    }

    /// The subcommand that the command's first option selects.
    pub fn command_of(first_option: Option<&str>) -> (r: PointsCommand)
        ensures
            r == points_command_of(match first_option {
                Some(n) => Some(n@),
                None => None,
            }),
    {
        match first_option {
            None => PointsCommand::OwnScore,
            Some(n) => if same_text(n, "channel") {
                PointsCommand::Channel
            } else if same_text(n, "user") {
                PointsCommand::User
            } else {
                PointsCommand::Other
            },
        }
    }

    /// A score with points added.
    pub fn add_points(score: &UserScore, points: i32) -> (r: UserScore)
        requires
            i32::MIN <= score.score + points <= i32::MAX,
        ensures
            r.user_id == score.user_id,
            r.score == score.score + points,
    {
        UserScore { user_id: score.user_id, score: score.score + points }
    }

    /// A score with points taken away.
    pub fn subtract_points(score: &UserScore, points: i32) -> (r: UserScore)
        requires
            i32::MIN <= score.score - points <= i32::MAX,
        ensures
            r.user_id == score.user_id,
            r.score == score.score - points,
    {
        UserScore { user_id: score.user_id, score: score.score - points }
    }

    /// What a reaction does to the author's score.
    pub fn reaction_points(emoji: Option<u64>, added: bool) -> (r: i32)
        ensures
            r == reaction_points(emoji, added),
    {
        match emoji {
            Some(id) => if id == 1494772872500088913u64 {
                if added { 1 } else { -1 }
            } else if id == 1494772826945617940u64 {
                if added { -1 } else { 1 }
            } else {
                0
            },
            None => 0,
        }
    }

    /// The author's score after a reaction.
    pub fn score_after_reaction(score: &UserScore, emoji: Option<u64>, added: bool) -> (r: UserScore)
        requires
            i32::MIN <= score.score + reaction_points(emoji, added) <= i32::MAX,
        ensures
            r.user_id == score.user_id,
            r.score == score.score + reaction_points(emoji, added),
    {
        let delta = PointsPlugin::reaction_points(emoji, added);
        if delta >= 0 {
            PointsPlugin::add_points(score, delta)
        } else {
            PointsPlugin::subtract_points(score, -delta)
        }
    }

    /// Whether a channel is one of the points channels.
    pub fn is_points_channel(channel_id: u64, points_channels: &Vec<u64>) -> (r: bool)
        ensures
            r == points_channels@.contains(channel_id),
    {
        let mut i: usize = 0;
        while i < points_channels.len()
            invariant
                i <= points_channels@.len(),
                forall|j: int| 0 <= j < i ==> points_channels@[j] != channel_id,
            decreases points_channels@.len() - i,
        {
            if points_channels[i] == channel_id {
                assert(points_channels@[i as int] == channel_id);
                return true;
            }
            i = i + 1;
        }
        false
    }

    /// Whether a message gets the vote reactions.
    pub fn votes_on_message(
        has_attachments: bool,
        content: &str,
        channel_id: u64,
        points_channels: &Vec<u64>,
        author_id: u64,
        bot_id: u64,
    ) -> (r: bool)
        ensures
            r == votes_on_message(has_attachments, content@, channel_id, points_channels@, author_id, bot_id),
    {
        (has_attachments || contains_text(content, "http"))
            && PointsPlugin::is_points_channel(channel_id, points_channels)
            && author_id != bot_id
    }

    /// Whether a reaction counts towards a score.
    pub fn reaction_counts(channel_id: u64, points_channels: &Vec<u64>, user_id: u64, bot_id: u64) -> (r: bool)
        ensures
            r == reaction_counts(channel_id, points_channels@, user_id, bot_id),
    {
        PointsPlugin::is_points_channel(channel_id, points_channels) && user_id != bot_id
    }

    /// The points channels after `points channel` names a channel: the
    /// channel is appended unless it is there already; the flag says whether
    /// it was added.
    pub fn add_channel(points_channels: Vec<u64>, channel_id: u64) -> (r: (Vec<u64>, bool))
        ensures
            r.1 == !points_channels@.contains(channel_id),
            r.0@ == channels_with(points_channels@, channel_id),
    {
        let mut channels = points_channels;
        if PointsPlugin::is_points_channel(channel_id, &channels) {
            (channels, false)
        } else {
            channels.push(channel_id);
            (channels, true)
        }
    }

    /// The configuration entry that stores the points channels.
    pub fn channels_config(points_channels: Vec<u64>) -> (r: GuildConfig)
        ensures
            r.key == GuildConfigKey::PointsChannels,
            r.value@ == ConfigValueView::ChannelIds(points_channels@),
    {
        GuildConfig::from_value(GuildConfigKey::PointsChannels, GuildConfigValue::ChannelIds(points_channels))
    }

    /// The points channels that a stored entry holds (none when there is no
    /// entry, or it holds a single channel).
    pub fn channels_of(config: Option<GuildConfig>) -> (r: Vec<u64>)
        ensures
            match config {
                Some(c) => match c.value@ {
                    ConfigValueView::ChannelIds(ids) => r@ == ids,
                    _ => r@ == Seq::<u64>::empty(),
                },
                None => r@ == Seq::<u64>::empty(),
            },
    {
        match config {
            Some(c) => match c.value {
                GuildConfigValue::ChannelIds(ids) => ids,
                _ => Vec::new(),
            },
            None => Vec::new(),
        }
    }

    /// The reply to `points channel`.
    pub fn channel_reply(channel_id: u64, added: bool) -> (r: String)
        ensures
            added ==> r@ == "Channel "@ + channel_mention(channel_id) + " has been added to the points system!"@,
            !added ==> r@ == "Channel "@ + channel_mention(channel_id) + " is already part of the points system."@,
    {
        let m = channel_mention_text(channel_id);
        let a = concat("Channel ", m.as_str());
        if added {
            concat(a.as_str(), " has been added to the points system!")
        } else {
            concat(a.as_str(), " is already part of the points system.")
        }
    }

    /// The reply showing a user's score.
    pub fn score_reply(username: &str, score: i32) -> (r: String)
        ensures
            r@ == score_text(username@, score as int),
    {
        let n = i64_to_text(score as i64);
        let parts = vec!["<:pouch:1494773684295041256> ", username, "'s score is ", n.as_str()];
        let s = concat_all(&parts);
        proof {
            reveal_with_fuel(concat_views, 5);
        }
        s
    }

    /// The reply to an unknown subcommand of `points`.
    pub fn unknown_reply() -> (r: String)
        ensures
            r@ == poor_choice_text("`user` or `channel`."@),
    {
        poor_choice("`user` or `channel`.")
    }
}

/// A reaction that is added and then removed leaves the author's score as it was.
pub proof fn lemma_reaction_undone(emoji: Option<u64>)
    ensures
        reaction_points(emoji, true) + reaction_points(emoji, false) == 0,
{
}

/// Which messages get the vote reactions: in a points channel and not
/// written by the bot, a message with an attachment does, and one without
/// does exactly when its text holds `http` somewhere (a plain `http://` link
/// as much as an `https://` one); no other message does.
pub proof fn lemma_vote_reactions(
    has_attachments: bool,
    content: Seq<char>,
    channel_id: u64,
    points_channels: Seq<u64>,
    author_id: u64,
    bot_id: u64,
)
    ensures
        !points_channels.contains(channel_id) || author_id == bot_id
            ==> !votes_on_message(has_attachments, content, channel_id, points_channels, author_id, bot_id),
        points_channels.contains(channel_id) && author_id != bot_id ==> (
            votes_on_message(has_attachments, content, channel_id, points_channels, author_id, bot_id)
                <==> (has_attachments || exists|i: int|
                    0 <= i && i + 4 <= content.len()
                        && #[trigger] content.subrange(i, i + 4) == seq!['h', 't', 't', 'p'])),
{
    reveal_strlit("http");
    assert("http"@ =~= seq!['h', 't', 't', 'p']);
    if contains_spec(content, "http"@) {
        let i = choose|i: int| occurs_at(content, "http"@, i);
        assert(content.subrange(i, i + 4) == seq!['h', 't', 't', 'p']);
    }
    if exists|i: int| 0 <= i && i + 4 <= content.len() && #[trigger] content.subrange(i, i + 4) == seq!['h', 't', 't', 'p'] {
        let i = choose|i: int| 0 <= i && i + 4 <= content.len() && #[trigger] content.subrange(i, i + 4) == seq!['h', 't', 't', 'p'];
        assert(occurs_at(content, "http"@, i));
    }
}

/// Naming a channel twice leaves the points channels as naming it once.
pub proof fn lemma_add_channel_idempotent(channels: Seq<u64>, channel_id: u64)
    ensures
        channels_with(channels, channel_id).contains(channel_id),
        channels_with(channels_with(channels, channel_id), channel_id) == channels_with(channels, channel_id),
{
    if !channels.contains(channel_id) {
        assert(channels.push(channel_id)[channels.len() as int] == channel_id);
    }
}

} // verus!
