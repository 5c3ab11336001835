//! Guild configuration entries and user scores, and the text encoding in
//! which configuration values are kept in the database.
use vstd::prelude::*;
use crate::text::{
    chars_of, dec_digits, join, join_spec, parse_unsigned, parse_unsigned_chars, push_decimal, split,
    split_spec, string_of, trim, trim_spec, u64_to_text, views, lemma_dec_digits_parse,
    lemma_parse_unsigned_bound, lemma_split_join, trim_start_spec,
};

verus! {

/// Represents a user's score in the database, including the user ID and
/// their score.
#[derive(Debug, Clone, Copy)]
pub struct UserScore {
    /// The unique discord user ID
    pub user_id: u64,
    /// The score value for the user
    pub score: i32,
}

impl UserScore {
    /// The score of a user that has none stored: 0.
    pub fn unscored(user_id: u64) -> (r: UserScore)
        ensures
            r.user_id == user_id,
            r.score == 0,
    {
        UserScore { user_id, score: 0 }
    }

    /// The score of a stored row: the user id is read as a number (0 when
    /// it is not one).
    pub fn from_row(user_id: &str, score: i32) -> (r: UserScore)
        ensures
            r.user_id == match parse_u64_spec(user_id@) {
                Some(n) => n,
                None => 0,
            },
            r.score == score,
    {
        let cs = chars_of(user_id);
        let id = match parse_u64(cs.as_slice()) {
            Some(n) => n,
            None => 0,
        };
        UserScore { user_id: id, score }
    }
}

/// The number of news items that are kept for each game.
pub open spec fn kept_news_items() -> int { 5 }

/// How many of a game's oldest news items are deleted when it has `count`:
/// all but the latest five.
pub open spec fn excess_news_items_spec(count: int) -> int {
    if count > kept_news_items() { count - kept_news_items() } else { 0 }
}

/// The news rows of a game (row id, news id), oldest first, that are kept:
/// the latest five.
pub open spec fn news_rows_kept(rows: Seq<(i64, Seq<char>)>) -> Seq<(i64, Seq<char>)> {
    rows.skip(excess_news_items_spec(rows.len() as int))
}

/// The row ids of a game's news rows, given oldest first, that are deleted
/// to keep only the latest five.
pub fn news_rows_to_delete(rows: &Vec<(i64, String)>) -> (r: Vec<i64>)
    ensures
        r@ == rows@.take(excess_news_items_spec(rows@.len() as int)).map_values(|p: (i64, String)| p.0),
{
    let n: usize = if rows.len() > 5 { rows.len() - 5 } else { 0 };
    let mut r: Vec<i64> = Vec::new();
    let mut i: usize = 0;
    while i < n
        invariant
            n == excess_news_items_spec(rows@.len() as int),
            i <= n,
            r@ == rows@.take(i as int).map_values(|p: (i64, String)| p.0),
        decreases n - i,
    {
        proof {
            assert(rows@.take(i + 1).map_values(|p: (i64, String)| p.0)
                =~= rows@.take(i as int).map_values(|p: (i64, String)| p.0).push(rows@[i as int].0));
        }
        r.push(rows[i].0);
        i = i + 1;
    }
    r
}

/// How many of a game's oldest news items to delete when it has `count`.
pub fn excess_news_items(count: i32) -> (r: i32)
    ensures
        r == excess_news_items_spec(count as int),
        count - r <= kept_news_items(),
        0 <= r,
{
    if count > 5 { count - 5 } else { 0 }
}

/// A key for guild configuration options in the database.
#[derive(Debug, Clone, Copy, PartialEq, Eq, Hash)]
pub enum GuildConfigKey {
    /// The channel ID for where patch notes should be posted in the guild
    PatchNotesChannel,
    /// The channel IDs where vote reactions should be added to messages
    PointsChannels,
    /// The channel ID for where jokes should be posted in the guild
    JokesChannel,
    /// The channel ID for where bot events should be posted in the guild
    EventsChannel,
}

/// The name under which a configuration key is stored.
pub open spec fn key_name(key: GuildConfigKey) -> Seq<char> {
    match key {
        GuildConfigKey::PatchNotesChannel => "PATCH_NOTES_CHANNEL"@,
        GuildConfigKey::PointsChannels => "POINTS_CHANNELS"@,
        GuildConfigKey::JokesChannel => "JOKES_CHANNEL"@,
        GuildConfigKey::EventsChannel => "EVENTS_CHANNEL"@,
    }
}

impl GuildConfigKey {
    /// The name under which this key is stored in the database.
    pub fn as_str(&self) -> (r: &'static str)
        ensures
            r@ == key_name(*self),
    {
        match self {
            GuildConfigKey::PatchNotesChannel => "PATCH_NOTES_CHANNEL",
            GuildConfigKey::PointsChannels => "POINTS_CHANNELS",
            GuildConfigKey::JokesChannel => "JOKES_CHANNEL",
            GuildConfigKey::EventsChannel => "EVENTS_CHANNEL",
        }
    }
}

/// A value for a guild configuration option.
#[derive(Debug, Clone)]
pub enum GuildConfigValue {
    ChannelId(u64),
    ChannelIds(Vec<u64>),
}

/// A value's abstract content: one channel or a list of channels.
#[verifier::ext_equal]
pub enum ConfigValueView {
    ChannelId(u64),
    ChannelIds(Seq<u64>),
}

impl View for GuildConfigValue {
    type V = ConfigValueView;

    open spec fn view(&self) -> ConfigValueView {
        match self {
            GuildConfigValue::ChannelId(id) => ConfigValueView::ChannelId(*id),
            GuildConfigValue::ChannelIds(ids) => ConfigValueView::ChannelIds(ids@),
        }
    }
}

/// The decimal texts of the given numbers.
pub open spec fn id_texts(ids: Seq<u64>) -> Seq<Seq<char>> {
    ids.map_values(|id: u64| dec_digits(id as nat))
}

/// The text under which a value is stored: the decimal channel id, or the
/// decimal channel ids separated by commas.
pub open spec fn value_text(v: ConfigValueView) -> Seq<char> {
    match v {
        ConfigValueView::ChannelId(id) => dec_digits(id as nat),
        ConfigValueView::ChannelIds(ids) => join_spec(id_texts(ids), seq![',']),
    }
}

/// `str::parse::<u64>`: an optional `+`, then decimal digits, no larger than `u64::MAX`.
pub open spec fn parse_u64_spec(s: Seq<char>) -> Option<u64> {
    match parse_unsigned(s, 10, u64::MAX as nat) {
        Some(n) => Some(n as u64),
        None => None,
    }
}

/// The numbers that parse from the trimmed pieces, in order, skipping the
/// pieces that do not parse.
pub open spec fn parsed_ids(pieces: Seq<Seq<char>>) -> Seq<u64>
    decreases pieces.len(),
{
    if pieces.len() == 0 {
        Seq::<u64>::empty()
    } else {
        let rest = parsed_ids(pieces.drop_last());
        match parse_u64_spec(trim_spec(pieces.last())) {
            Some(n) => rest.push(n),
            None => rest,
        }
    }
}

/// The value that a stored text is read back as for a key: a single channel
/// id (0 when the text is not a number) for the single-channel keys, and the
/// comma-separated numbers for the points channels.
pub open spec fn value_of_text(key: GuildConfigKey, text: Seq<char>) -> ConfigValueView {
    match key {
        GuildConfigKey::PointsChannels => ConfigValueView::ChannelIds(parsed_ids(split_spec(text, ','))),
        _ => ConfigValueView::ChannelId(
            match parse_u64_spec(text) {
                Some(n) => n,
                None => 0,
            },
        ),
    }
}

/// Whether a value has the shape that its key stores.
pub open spec fn value_fits_key(key: GuildConfigKey, v: ConfigValueView) -> bool {
    match key {
        GuildConfigKey::PointsChannels => v is ChannelIds,
        _ => v is ChannelId,
    }
}

/// Parses a decimal `u64` as `str::parse` does.
pub fn parse_u64(s: &[char]) -> (r: Option<u64>)
    ensures
        r == parse_u64_spec(s@),
{
    parse_unsigned_chars(s, 10, u64::MAX)
}

/// The text under which a configuration value is stored.
pub fn value_to_text(v: &GuildConfigValue) -> (r: String)
    ensures
        r@ == value_text(v@),
{
    match v {
        GuildConfigValue::ChannelId(id) => u64_to_text(*id),
        GuildConfigValue::ChannelIds(ids) => {
            let mut pieces: Vec<Vec<char>> = Vec::new();
            let mut i: usize = 0;
            while i < ids.len()
                invariant
                    i <= ids@.len(),
                    views(pieces@) == id_texts(ids@.take(i as int)),
                decreases ids@.len() - i,
            {
                let mut p: Vec<char> = Vec::new();
                push_decimal(&mut p, ids[i]);
                let ghost before = views(pieces@);
                pieces.push(p);
                proof {
                    assert(views(pieces@) =~= before.push(dec_digits(ids@[i as int] as nat)));
                    assert(id_texts(ids@.take(i + 1)) =~= id_texts(ids@.take(i as int)).push(
                        dec_digits(ids@[i as int] as nat),
                    ));
                }
                i = i + 1;
            }
            proof {
                assert(ids@.take(ids@.len() as int) =~= ids@);
            }
            let sep = [','];
            let joined = join(&pieces, &sep);
            proof {
                assert(sep@ =~= seq![',']);
            }
            string_of(joined.as_slice())
        },
    }
}

/// The channel ids in a comma-separated list, skipping pieces that are not numbers.
pub fn parse_id_list(text: &[char]) -> (r: Vec<u64>)
    ensures
        r@ == parsed_ids(split_spec(text@, ',')),
{
    let pieces = split(text, ',');
    let ghost ps = views(pieces@);
    let mut r: Vec<u64> = Vec::new();
    let mut i: usize = 0;
    while i < pieces.len()
        invariant
            i <= pieces@.len(),
            ps == views(pieces@),
            r@ == parsed_ids(ps.take(i as int)),
        decreases pieces@.len() - i,
    {
        proof {
            assert(ps.take(i + 1).drop_last() =~= ps.take(i as int));
            assert(ps.take(i + 1).last() == pieces@[i as int]@);
        }
        let t = trim(pieces[i].as_slice());
        match parse_u64(t.as_slice()) {
            Some(n) => r.push(n),
            None => {},
        }
        i = i + 1;
    }
    proof {
        assert(ps.take(pieces@.len() as int) =~= ps);
    }
    r
}

/// A guild configuration entry: a key and its value.
pub struct GuildConfig {
    pub key: GuildConfigKey,
    pub value: GuildConfigValue,
}

impl GuildConfig {
    pub fn key(&self) -> (r: &GuildConfigKey)
        ensures
            *r == self.key,
    {
        &self.key
    }

    pub fn value(&self) -> (r: &GuildConfigValue)
        ensures
            r@ == self.value@,
    {
        &self.value
    }

    /// An entry from a key and a value.
    pub fn from_value(key: GuildConfigKey, value: GuildConfigValue) -> (r: GuildConfig)
        ensures
            r.key == key,
            r.value@ == value@,
    {
        GuildConfig { key, value }
    }

    /// The entry that a stored text is read back as for the given key.
    pub fn from_text(key: GuildConfigKey, value: &str) -> (r: GuildConfig)
        ensures
            r.key == key,
            r.value@ == value_of_text(key, value@),
    {
        let cs = chars_of(value);
        let v = match key {
            GuildConfigKey::PointsChannels => GuildConfigValue::ChannelIds(parse_id_list(cs.as_slice())),
            _ => {
                let id = match parse_u64(cs.as_slice()) {
                    Some(n) => n,
                    None => 0,
                };
                GuildConfigValue::ChannelId(id)
            },
        };
        GuildConfig { key, value: v }
    }

    /// The text under which this entry's value is stored.
    pub fn value_text(&self) -> (r: String)
        ensures
            r@ == value_text(self.value@),
    {
        value_to_text(&self.value)
    }
}


proof fn lemma_parsed_id_texts(ids: Seq<u64>)
    ensures
        parsed_ids(id_texts(ids)) == ids,
    decreases ids.len(),
{
    if ids.len() > 0 {
        lemma_parsed_id_texts(ids.drop_last());
        assert(id_texts(ids).drop_last() =~= id_texts(ids.drop_last()));
        let n = ids.last();
        assert(id_texts(ids).last() == dec_digits(n as nat));
        lemma_dec_digits_parse(n as nat);
        lemma_parse_unsigned_bound(dec_digits(n as nat), 10, n as nat, u64::MAX as nat);
        assert(ids.drop_last().push(n) =~= ids);
    }
}

/// A user id stored as its decimal text reads back as the same id.
pub proof fn lemma_user_id_roundtrip(user_id: u64)
    ensures
        parse_u64_spec(dec_digits(user_id as nat)) == Some(user_id),
{
    lemma_dec_digits_parse(user_id as nat);
    lemma_parse_unsigned_bound(dec_digits(user_id as nat), 10, user_id as nat, u64::MAX as nat);
}

/// A configuration value that is stored under a key and read back for the
/// same key is the value that was stored, when the value has the shape that
/// the key stores (a list for the points channels, one channel otherwise).
pub proof fn lemma_config_value_roundtrip(key: GuildConfigKey, v: ConfigValueView)
    requires
        value_fits_key(key, v),
    ensures
        value_of_text(key, value_text(v)) == v,
{
    match v {
        ConfigValueView::ChannelId(id) => {
            lemma_user_id_roundtrip(id);
        },
        ConfigValueView::ChannelIds(ids) => {
            let texts = id_texts(ids);
            if ids.len() == 0 {
                // The empty list is stored as the empty text, which splits
                // into one empty piece that does not parse.
                assert(value_text(v) =~= Seq::<char>::empty());
                assert(split_spec(value_text(v), ',') =~= seq![Seq::<char>::empty()]);
                assert(seq![Seq::<char>::empty()].drop_last() =~= Seq::<Seq<char>>::empty());
                assert(trim_start_spec(Seq::<char>::empty()) == Seq::<char>::empty());
                assert(parse_u64_spec(Seq::<char>::empty()) is None);
                assert(parsed_ids(Seq::<Seq<char>>::empty()) =~= Seq::<u64>::empty());
                assert(parsed_ids(seq![Seq::<char>::empty()]) =~= ids);
            } else {
                assert forall|i: int| 0 <= i < texts.len() implies !(#[trigger] texts[i]).contains(',') by {
                    lemma_dec_digits_parse(ids[i] as nat);
                }
                lemma_split_join(texts, ',');
                lemma_parsed_id_texts(ids);
            }
        },
    }
}

} // verus!
