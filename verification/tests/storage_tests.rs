use motorbot::storage::{excess_news_items, news_rows_to_delete, GuildConfig, GuildConfigKey, GuildConfigValue, UserScore};

fn ids_of(c: &GuildConfig) -> Vec<u64> {
    match c.value() {
        GuildConfigValue::ChannelIds(ids) => ids.clone(),
        GuildConfigValue::ChannelId(_) => panic!("expected a list of channels"),
    }
}

fn id_of(c: &GuildConfig) -> u64 {
    match c.value() {
        GuildConfigValue::ChannelId(id) => *id,
        GuildConfigValue::ChannelIds(_) => panic!("expected a single channel"),
    }
}

#[test]
fn key_names_are_stored_names() {
    assert_eq!(GuildConfigKey::PatchNotesChannel.as_str(), "PATCH_NOTES_CHANNEL");
    assert_eq!(GuildConfigKey::PointsChannels.as_str(), "POINTS_CHANNELS");
    assert_eq!(GuildConfigKey::JokesChannel.as_str(), "JOKES_CHANNEL");
    assert_eq!(GuildConfigKey::EventsChannel.as_str(), "EVENTS_CHANNEL");
}

#[test]
fn single_channel_text_is_parsed() {
    let c = GuildConfig::from_text(GuildConfigKey::PatchNotesChannel, "1234567890");
    assert_eq!(*c.key(), GuildConfigKey::PatchNotesChannel);
    assert_eq!(id_of(&c), 1234567890);
    let c = GuildConfig::from_text(GuildConfigKey::JokesChannel, "+42");
    assert_eq!(id_of(&c), 42);
}

#[test]
fn single_channel_text_that_is_not_a_number_reads_as_zero() {
    assert_eq!(id_of(&GuildConfig::from_text(GuildConfigKey::EventsChannel, "abc")), 0);
    assert_eq!(id_of(&GuildConfig::from_text(GuildConfigKey::EventsChannel, " 5")), 0);
    assert_eq!(id_of(&GuildConfig::from_text(GuildConfigKey::EventsChannel, "")), 0);
    assert_eq!(id_of(&GuildConfig::from_text(GuildConfigKey::EventsChannel, "18446744073709551616")), 0);
    assert_eq!(
        id_of(&GuildConfig::from_text(GuildConfigKey::EventsChannel, "18446744073709551615")),
        u64::MAX
    );
}

#[test]
fn channel_list_text_skips_pieces_that_are_not_numbers() {
    let c = GuildConfig::from_text(GuildConfigKey::PointsChannels, "1, 2,x,,3 ");
    assert_eq!(ids_of(&c), vec![1, 2, 3]);
    let c = GuildConfig::from_text(GuildConfigKey::PointsChannels, "");
    assert_eq!(ids_of(&c), Vec::<u64>::new());
    let c = GuildConfig::from_text(GuildConfigKey::PointsChannels, "7");
    assert_eq!(ids_of(&c), vec![7]);
}

#[test]
fn values_are_written_as_decimal_text() {
    let c = GuildConfig::from_value(GuildConfigKey::PatchNotesChannel, GuildConfigValue::ChannelId(905));
    assert_eq!(c.value_text(), "905");
    let c = GuildConfig::from_value(GuildConfigKey::PointsChannels, GuildConfigValue::ChannelIds(vec![10, 0, 33]));
    assert_eq!(c.value_text(), "10,0,33");
    let c = GuildConfig::from_value(GuildConfigKey::PointsChannels, GuildConfigValue::ChannelIds(vec![]));
    assert_eq!(c.value_text(), "");
}

#[test]
fn stored_value_reads_back_unchanged() {
    let ids = vec![1494772872500088913, 5, u64::MAX];
    let stored = GuildConfig::from_value(GuildConfigKey::PointsChannels, GuildConfigValue::ChannelIds(ids.clone()));
    let read = GuildConfig::from_text(GuildConfigKey::PointsChannels, &stored.value_text());
    assert_eq!(ids_of(&read), ids);
    let stored = GuildConfig::from_value(GuildConfigKey::JokesChannel, GuildConfigValue::ChannelId(77));
    let read = GuildConfig::from_text(GuildConfigKey::JokesChannel, &stored.value_text());
    assert_eq!(id_of(&read), 77);
}

#[test]
fn list_stored_under_single_channel_key_does_not_read_back() {
    let stored = GuildConfig::from_value(GuildConfigKey::PatchNotesChannel, GuildConfigValue::ChannelIds(vec![1, 2]));
    let read = GuildConfig::from_text(GuildConfigKey::PatchNotesChannel, &stored.value_text());
    assert_eq!(id_of(&read), 0);
}

#[test]
fn user_score_rows() {
    let s = UserScore::from_row("123456789012", -4);
    assert_eq!(s.user_id, 123456789012);
    assert_eq!(s.score, -4);
    assert_eq!(UserScore::from_row("not a number", 3).user_id, 0);
    let u = UserScore::unscored(99);
    assert_eq!((u.user_id, u.score), (99, 0));
}

#[test]
fn news_items_beyond_five_are_removed() {
    assert_eq!(excess_news_items(0), 0);
    assert_eq!(excess_news_items(5), 0);
    assert_eq!(excess_news_items(6), 1);
    assert_eq!(excess_news_items(12), 7);
    assert_eq!(excess_news_items(-3), 0);
}

#[test]
fn only_the_latest_five_news_rows_are_kept() {
    let rows: Vec<(i64, String)> = (1..=7).map(|i| (i * 10, format!("n{}", i))).collect();
    assert_eq!(news_rows_to_delete(&rows), vec![10, 20]);
    assert_eq!(news_rows_to_delete(&rows[..5].to_vec()), Vec::<i64>::new());
    assert_eq!(news_rows_to_delete(&Vec::new()), Vec::<i64>::new());
}
