use motorbot::patches_error::PatchesError;
use motorbot::platform::Platform;
use motorbot::riot::{Riot, RiotGameId};

#[test]
fn valid_platforms_are_steam_and_riot() {
    assert!(Platform::is_valid_platform("steam"));
    assert!(Platform::is_valid_platform("riot"));
    assert!(!Platform::is_valid_platform("Steam"));
    assert!(!Platform::is_valid_platform("epic"));
    assert!(!Platform::is_valid_platform(""));
}

#[test]
fn platform_names_read_back() {
    for p in [Platform::Steam, Platform::Riot] {
        assert_eq!(Platform::from_str(p.as_str()).unwrap(), p);
    }
    assert!(matches!(Platform::from_str("xbox"), Err(PatchesError::InvalidGamePlatform)));
}

#[test]
fn riot_game_ids() {
    assert_eq!(RiotGameId::from_str("lol"), RiotGameId::LoL);
    assert_eq!(RiotGameId::from_str("tft"), RiotGameId::TFT);
    assert_eq!(RiotGameId::from_str("val"), RiotGameId::VAL);
    assert_eq!(RiotGameId::from_str("LOL"), RiotGameId::Unknown);
    for id in [RiotGameId::LoL, RiotGameId::TFT, RiotGameId::VAL, RiotGameId::Unknown] {
        assert_eq!(RiotGameId::from_str(id.as_str()), id);
    }
    assert_eq!(RiotGameId::Unknown.as_str(), "unknown");
}

#[test]
fn riot_news_page_addresses() {
    assert_eq!(Riot::news_url("lol", None), "https://www.leagueoflegends.com/en-gb/news/");
    assert_eq!(
        Riot::news_url("tft", Some("game-updates/")),
        "https://teamfighttactics.leagueoflegends.com/en-gb/news/game-updates/"
    );
    assert_eq!(Riot::news_url("val", None), "https://playvalorant.com/en-gb/news/");
    assert_eq!(Riot::news_url("dota", Some("x")), "https://www.leagueoflegends.com/en-gb/news/");
}

#[test]
fn riot_article_links_are_resolved() {
    assert_eq!(
        Riot::article_url("val", "/en-gb/news/patch-9/"),
        "https://www.playvalorant.com/en-gb/news/patch-9/"
    );
    assert_eq!(
        Riot::article_url("lol", "/news/a"),
        "https://www.leagueoflegends.com/en-gb//news/a"
    );
    assert_eq!(Riot::article_url("lol", "https://x.y/z"), "https://x.y/z");
    assert_eq!(Riot::article_url("other", "/a"), "/a");
}
