use motorbot::riot::Riot;
use motorbot::steam::{Steam, SteamNewsItem};

fn item(contents: &str) -> SteamNewsItem {
    SteamNewsItem {
        gid: "\"5123\"".to_string(),
        contents: contents.to_string(),
        url: "\"https://store.steampowered.com/news/app/1\"".to_string(),
        title: "\"Patch 1.2\"".to_string(),
    }
}

#[test]
fn bbcode_is_rewritten_to_markdown() {
    assert_eq!(Steam::rewrite_bbcode("\"[b]Hi[/b] [i]a[/i]\""), "**Hi** *a*");
    assert_eq!(Steam::rewrite_bbcode("[h1]T[/h1][list][*]x[/list]"), "## T- x");
    assert_eq!(Steam::rewrite_bbcode("[p]one[/p]two\\nthree"), "one\ntwo\nthree");
    assert_eq!(Steam::rewrite_bbcode("[quote]q[/quote] [u]u[/u] [h2]s[/h2][h3]t[/h3]"), "> q __u__ ### st");
}

#[test]
fn steam_item_becomes_news() {
    let news = Steam::new()
        .parse_response(&item("\"[b]Fixes[/b] [img]{STEAM_CLAN_IMAGE}/a.png[/img] done [url=https://x]link[/url]\""))
        .unwrap();
    assert_eq!(news.gid, "5123");
    assert_eq!(news.title, "Patch 1.2");
    assert_eq!(news.url, "https://store.steampowered.com/news/app/1");
    assert_eq!(news.image, "https://clan.akamai.steamstatic.com/images//a.png");
    assert_eq!(news.content, "**Fixes**  done");
}

#[test]
fn steam_image_from_src_tag() {
    let news = Steam::new()
        .parse_response(&item("x [img src=\\\\{STEAM_CLAN_IMAGE}b.jpg][/img] [previewyoutube=abc][/previewyoutube]"))
        .unwrap();
    assert_eq!(news.image, "https://clan.akamai.steamstatic.com/images/b.jpg");
    assert_eq!(news.content, "x");
}

#[test]
fn steam_content_is_truncated() {
    let long = "a".repeat(450);
    let news = Steam::new().parse_response(&item(&long)).unwrap();
    assert_eq!(news.content, format!("{}...", "a".repeat(400)));
    let exact = "b".repeat(400);
    let news = Steam::new().parse_response(&item(&exact)).unwrap();
    assert_eq!(news.content, exact);
    let wide = "é".repeat(300);
    let news = Steam::new().parse_response(&item(&wide)).unwrap();
    assert_eq!(news.content, format!("{}...", "é".repeat(300)));
    assert_eq!(news.image, "");
}

const PAGE: &str = r#"<html><body>
<section id="news">
  <a role="button" href="/en-gb/news/game-updates/patch-25-1/" aria-label="Patch 25.1 Notes">
    <div data-testid="card-description">All the changes</div>
  </a>
  <a role="button" href="https://example.com/b" aria-label="Second"></a>
</section>
<script id="__NEXT_DATA__">{"props":{"pageProps":{"page":{"blades":[{},{},{"items":[{"media":{"url":"https://img/x.jpg"}}]}]}}}}</script>
</body></html>"#;

#[test]
fn riot_page_becomes_news() {
    let news = Riot::new().parse_news("lol", PAGE.to_string()).unwrap();
    assert_eq!(news.len(), 2);
    assert_eq!(news[0].title, "Patch 25.1 Notes");
    assert_eq!(news[0].content, "All the changes");
    assert_eq!(news[0].url, "https://www.leagueoflegends.com/en-gb//en-gb/news/game-updates/patch-25-1/");
    assert_eq!(news[0].image, "https://img/x.jpg");
    assert!(news[0].gid.chars().all(|c| c.is_ascii_digit()));
    assert!(!news[0].gid.is_empty());
    assert_eq!(news[1].title, "Second");
    assert_eq!(news[1].content, "");
    assert_eq!(news[1].url, "https://example.com/b");
    assert_ne!(news[0].gid, news[1].gid);
}

#[test]
fn riot_page_without_articles_has_no_news() {
    let news = Riot::new().parse_news("val", "<html><p>nothing</p></html>".to_string()).unwrap();
    assert!(news.is_empty());
}

#[test]
fn riot_page_with_bad_data_script_is_refused() {
    let page = r#"<section id="news"><a role="button" href="/x" aria-label="A"></a></section><script id="__NEXT_DATA__">{not json</script>"#;
    assert!(Riot::new().parse_news("val", page.to_string()).is_none());
}

#[test]
fn riot_image_missing_is_empty() {
    assert_eq!(Riot::image_from_next_data("{}").unwrap(), "");
    assert!(Riot::image_from_next_data("nope").is_none());
}

#[test]
fn riot_equal_links_give_equal_ids() {
    let page = r#"<section id="news">
<a role="button" href="/en-gb/news/p/" aria-label="A"></a>
<a role="button" href="https://www.leagueoflegends.com/en-gb//en-gb/news/p/" aria-label="B"></a>
<a role="button" href="/en-gb/news/q/" aria-label="C"></a>
</section><script id="__NEXT_DATA__">{}</script>"#;
    let news = Riot::new().parse_news("lol", page.to_string()).unwrap();
    assert_eq!(news.len(), 3);
    assert_eq!(news[0].url, news[1].url);
    assert_eq!(news[0].gid, news[1].gid);
    assert_ne!(news[0].gid, news[2].gid);
    let again = Riot::new().parse_news("lol", page.to_string()).unwrap();
    assert_eq!(again[2].gid, news[2].gid);
}

#[test]
fn steam_item_without_tags_is_parsed() {
    let news = Steam::new().parse_response(&item("plain text")).unwrap();
    assert_eq!(news.content, "plain text");
    assert_eq!(news.image, "");
}

#[test]
fn steam_response_gives_first_news_item() {
    let body = r#"{"appnews":{"appid":570,"newsitems":[{"gid":"5123","title":"Patch 1.2","url":"https://store.steampowered.com/news/app/1","contents":"[b]Fixes[/b]"},{"gid":"1"}]}}"#;
    let item = Steam::news_item(body).unwrap();
    assert_eq!(item.gid, "\"5123\"");
    assert_eq!(item.title, "\"Patch 1.2\"");
    assert_eq!(item.url, "\"https://store.steampowered.com/news/app/1\"");
    assert_eq!(item.contents, "\"[b]Fixes[/b]\"");
    let news = Steam::new().parse_response(&item).unwrap();
    assert_eq!(news.gid, "5123");
    assert_eq!(news.content, "**Fixes**");
}

#[test]
fn steam_response_without_items_gives_nulls() {
    let item = Steam::news_item(r#"{"appnews":{"newsitems":[]}}"#).unwrap();
    assert_eq!(item.gid, "null");
    assert_eq!(item.contents, "null");
    assert_eq!(item.url, "null");
    assert_eq!(item.title, "null");
}

#[test]
fn steam_response_that_is_not_json_is_refused() {
    assert!(Steam::news_item("<html>busy</html>").is_none());
}
