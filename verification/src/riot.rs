//! Riot patch notes: game ids, news page addresses, and the articles of a
//! news page.
use std::hash::{Hash, Hasher};
use vstd::prelude::*;
use crate::json::{
    json_string, json_string_value, json_walk, opt_view, step_view, walk_json, JsonStep,
};
use crate::text::{
    concat, dec_digits, lemma_empty_literal, same_text, starts_with, starts_with_spec, u64_to_text,
};

verus! {

/// The Riot games whose news pages are followed.
#[derive(Debug, Clone, Copy, PartialEq, Eq, Structural)]
pub enum RiotGameId {
    LoL,
    TFT,
    VAL,
    Unknown,
}

/// The short code of a game (its `Display` form).
pub open spec fn riot_code(id: RiotGameId) -> Seq<char> {
    match id {
        RiotGameId::LoL => "lol"@,
        RiotGameId::TFT => "tft"@,
        RiotGameId::VAL => "val"@,
        RiotGameId::Unknown => "unknown"@,
    }
}

/// The game that a short code denotes; any other text is `Unknown`.
pub open spec fn riot_id_of(s: Seq<char>) -> RiotGameId {
    if s == "lol"@ {
        RiotGameId::LoL
    } else if s == "tft"@ {
        RiotGameId::TFT
    } else if s == "val"@ {
        RiotGameId::VAL
    } else {
        RiotGameId::Unknown
    }
}

/// The address of a game's news page.
pub open spec fn news_base_url(id: RiotGameId) -> Seq<char> {
    match id {
        RiotGameId::LoL => "https://www.leagueoflegends.com/en-gb/news/"@,
        RiotGameId::TFT => "https://teamfighttactics.leagueoflegends.com/en-gb/news/"@,
        RiotGameId::VAL => "https://playvalorant.com/en-gb/news/"@,
        RiotGameId::Unknown => "https://www.leagueoflegends.com/en-gb/news/"@,
    }
}

/// The address that a game's relative article links are resolved against.
pub open spec fn site_base_url(id: RiotGameId) -> Seq<char> {
    match id {
        RiotGameId::LoL => "https://www.leagueoflegends.com/en-gb/"@,
        RiotGameId::TFT => "https://teamfighttactics.leagueoflegends.com/en-gb/"@,
        RiotGameId::VAL => "https://www.playvalorant.com"@,
        RiotGameId::Unknown => ""@,
    }
}

impl RiotGameId {
    /// The game that a short code denotes (`lol`, `tft`, `val`); any other
    /// text is `Unknown`.
    pub fn from_str(s: &str) -> (r: RiotGameId)
        ensures
            r == riot_id_of(s@),
    {
        if same_text(s, "lol") {
            RiotGameId::LoL
        } else if same_text(s, "tft") {
            RiotGameId::TFT
        } else if same_text(s, "val") {
            RiotGameId::VAL
        } else {
            RiotGameId::Unknown
        }
    }

    /// The short code of the game.
    pub fn as_str(&self) -> (r: &'static str)
        ensures
            r@ == riot_code(*self),
    {
        match self {
            RiotGameId::LoL => "lol",
            RiotGameId::TFT => "tft",
            RiotGameId::VAL => "val",
            RiotGameId::Unknown => "unknown",
        }
    }
}

/// A game's short code reads back as the same game.
pub proof fn lemma_riot_code_roundtrip(id: RiotGameId)
    ensures
        riot_id_of(riot_code(id)) == id,
{
    reveal_strlit("lol");
    reveal_strlit("tft");
    reveal_strlit("val");
    reveal_strlit("unknown");
    assert("lol"@ != "tft"@) by { assert("lol"@[0] != "tft"@[0]); }
    assert("lol"@ != "val"@) by { assert("lol"@[0] != "val"@[0]); }
    assert("tft"@ != "val"@) by { assert("tft"@[0] != "val"@[0]); }
    assert("unknown"@ != "lol"@) by { assert("unknown"@.len() != "lol"@.len()); }
    assert("unknown"@ != "tft"@) by { assert("unknown"@.len() != "tft"@.len()); }
    assert("unknown"@ != "val"@) by { assert("unknown"@.len() != "val"@.len()); }
}

/// Riot's news pages.
pub struct Riot {}

/// The patch notes of a Riot game.
#[derive(Debug, Clone)]
pub struct RiotNews {
    pub title: String,
    pub content: String,
    pub url: String,
    pub image: String,
    pub gid: String,
}

/// The page that is requested for a game: its news page followed by the
/// article path, if one is given; unknown games get League of Legends'
/// news page, without the path.
pub open spec fn news_page_url(id: RiotGameId, article_path: Option<Seq<char>>) -> Seq<char> {
    match id {
        RiotGameId::Unknown => news_base_url(id),
        _ => news_base_url(id) + match article_path {
            Some(p) => p,
            None => ""@,
        },
    }
}

/// An article link as posted: a link starting with `/` is resolved against
/// the game's site, any other link is kept.
pub open spec fn article_url(id: RiotGameId, href: Seq<char>) -> Seq<char> {
    if starts_with_spec(href, "/"@) {
        site_base_url(id) + href
    } else {
        href
    }
}

/// How an article link of a game's news page is resolved: a link that
/// starts with `/` is put after the site of the game whose code the page was
/// fetched for (`lol`: League of Legends, `tft`: Teamfight Tactics, `val`:
/// Valorant, any other code: nothing); any other link is kept as it is.
pub proof fn lemma_article_links_resolve(code: Seq<char>, href: Seq<char>)
    ensures
        href.len() > 0 && href[0] == '/' ==> {
            &&& code == "lol"@ ==> article_url(riot_id_of(code), href)
                == "https://www.leagueoflegends.com/en-gb/"@ + href
            &&& code == "tft"@ ==> article_url(riot_id_of(code), href)
                == "https://teamfighttactics.leagueoflegends.com/en-gb/"@ + href
            &&& code == "val"@ ==> article_url(riot_id_of(code), href)
                == "https://www.playvalorant.com"@ + href
            &&& code != "lol"@ && code != "tft"@ && code != "val"@ ==> article_url(riot_id_of(code), href) == href
        },
        !(href.len() > 0 && href[0] == '/') ==> article_url(riot_id_of(code), href) == href,
{
    reveal_strlit("/");
    reveal_strlit("");
    reveal_strlit("lol");
    reveal_strlit("tft");
    reveal_strlit("val");
    assert("lol"@[0] != "tft"@[0] && "lol"@[0] != "val"@[0] && "tft"@[0] != "val"@[0]);
    if href.len() > 0 && href[0] == '/' {
        assert(href.take(1) =~= "/"@);
        assert(""@ + href =~= href);
    } else if href.len() > 0 {
        assert(href.take(1)[0] != "/"@[0]);
    }
}

impl Riot {
    /// Creates a new Riot struct
    pub fn new() -> (r: Riot) {
        Riot {}
    }

    fn news_base(id: RiotGameId) -> (r: &'static str)
        ensures
            r@ == news_base_url(id),
    {
        match id {
            RiotGameId::LoL => "https://www.leagueoflegends.com/en-gb/news/",
            RiotGameId::TFT => "https://teamfighttactics.leagueoflegends.com/en-gb/news/",
            RiotGameId::VAL => "https://playvalorant.com/en-gb/news/",
            RiotGameId::Unknown => "https://www.leagueoflegends.com/en-gb/news/",
        }
    }

    fn site_base(id: RiotGameId) -> (r: &'static str)
        ensures
            r@ == site_base_url(id),
    {
        match id {
            RiotGameId::LoL => "https://www.leagueoflegends.com/en-gb/",
            RiotGameId::TFT => "https://teamfighttactics.leagueoflegends.com/en-gb/",
            RiotGameId::VAL => "https://www.playvalorant.com",
            RiotGameId::Unknown => "",
        }
    }

    /// The page to request for a game's news (or one of its articles).
    pub fn news_url(game_id: &str, article_path: Option<&str>) -> (r: String)
        ensures
            r@ == news_page_url(riot_id_of(game_id@), match article_path {
                Some(p) => Some(p@),
                None => None,
            }),
    {
        proof {
            lemma_empty_literal();
        }
        let id = RiotGameId::from_str(game_id);
        let base = Riot::news_base(id);
        match id {
            RiotGameId::Unknown => concat(base, ""),
            _ => match article_path {
                Some(p) => concat(base, p),
                None => concat(base, ""),
            },
        }
    }

    /// Resolves an article link of a game's news page.
    pub fn article_url(game_id: &str, href: &str) -> (r: String)
        ensures
            r@ == article_url(riot_id_of(game_id@), href@),
    {
        proof {
            lemma_empty_literal();
        }
        let id = RiotGameId::from_str(game_id);
        if starts_with(href, "/") {
            concat(Riot::site_base(id), href)
        } else {
            concat(href, "")
        }
    }
}


/// What the news page offers of one article: its link, its label and the
/// text of its description card, each where present.
pub struct RiotArticleFields {
    pub href: Option<String>,
    pub label: Option<String>,
    pub description: Option<String>,
}

pub open spec fn or_empty(o: Option<Seq<char>>) -> Seq<char> {
    match o {
        Some(s) => s,
        None => Seq::<char>::empty(),
    }
}

pub open spec fn article_fields_view(a: RiotArticleFields) -> (Option<Seq<char>>, Option<Seq<char>>, Option<Seq<char>>) {
    (opt_view(a.href), opt_view(a.label), opt_view(a.description))
}

/// Names what `scraper` finds in a page: `None` when a selector does not
/// parse, else, for each element that `Html::select` yields for `selector`,
/// the values of its two attributes and the collected text of its first
/// descendant matching `description_selector`.
pub uninterp spec fn html_articles(
    html: Seq<char>,
    selector: Seq<char>,
    href_attr: Seq<char>,
    label_attr: Seq<char>,
    description_selector: Seq<char>,
) -> Option<Seq<(Option<Seq<char>>, Option<Seq<char>>, Option<Seq<char>>)>>;

/// Names what `scraper` finds in a page: `None` when the selector does not
/// parse, else the collected text of the first element matching it, if any.
pub uninterp spec fn html_first_text(html: Seq<char>, selector: Seq<char>) -> Option<Option<Seq<char>>>;

/// Calls `scraper::Html::parse_document`, `Selector::parse` and `Html::select`,
/// and reads `ElementRef::attr` and `ElementRef::text` of each match. Its
/// result is believed to be `html_articles` of its arguments, and to be
/// `Some` for the two selectors of a news page, which are valid CSS
/// (`Selector::parse` fails only on invalid CSS); nothing more of HTML
/// parsing is stated.
#[verifier::external_body]
fn select_articles(
    html: &str,
    selector: &str,
    href_attr: &str,
    label_attr: &str,
    description_selector: &str,
) -> (r: Option<Vec<RiotArticleFields>>)
    ensures
        r is Some <==> html_articles(html@, selector@, href_attr@, label_attr@, description_selector@) is Some,
        selector@ == "section[id=\"news\"] a[role=\"button\"]"@
            && description_selector@ == "div[data-testid=\"card-description\"]"@ ==> r is Some,
        r matches Some(v) ==> html_articles(html@, selector@, href_attr@, label_attr@, description_selector@)
            == Some(v@.map_values(|a: RiotArticleFields| article_fields_view(a))),
{
    let document = scraper::Html::parse_document(html);
    let sel = scraper::Selector::parse(selector).ok()?;
    let desc = scraper::Selector::parse(description_selector).ok()?;
    Some(document.select(&sel).map(|a| RiotArticleFields {
        href: a.value().attr(href_attr).map(|s| s.to_string()),
        label: a.value().attr(label_attr).map(|s| s.to_string()),
        description: a.select(&desc).next().map(|c| c.text().collect::<String>()),
    }).collect())
}

/// Calls `scraper::Html::parse_document`, `Selector::parse` and `Html::select`,
/// collecting `ElementRef::text` of the first match. Its result is believed
/// to be `html_first_text` of its arguments, and to be `Some` for the valid
/// selector of a page's `__NEXT_DATA__` script.
#[verifier::external_body]
fn select_first_text(html: &str, selector: &str) -> (r: Option<Option<String>>)
    ensures
        r is Some <==> html_first_text(html@, selector@) is Some,
        selector@ == "script[id=\"__NEXT_DATA__\"]"@ ==> r is Some,
        r matches Some(o) ==> html_first_text(html@, selector@) == Some(opt_view(o)),
{
    let document = scraper::Html::parse_document(html);
    let sel = scraper::Selector::parse(selector).ok()?;
    Some(document.select(&sel).next().map(|d| d.text().collect::<String>()))
}

/// Names what std's `DefaultHasher::new()` gives for a text after
/// `Hash::hash` and `Hasher::finish`. std guarantees that every hasher made by
/// `new` gives the same output for the same input; its algorithm is left
/// unspecified, so nothing else is stated of it.
pub uninterp spec fn default_hash_of(text: Seq<char>) -> u64;

/// Hashes a text with std's `DefaultHasher` (`Hash::hash` then
/// `Hasher::finish`). Its result is believed to be `default_hash_of` of its
/// argument.
#[verifier::external_body]
fn default_hash(text: &str) -> (r: u64)
    ensures
        r == default_hash_of(text@),
{
    let mut hasher = std::collections::hash_map::DefaultHasher::new();
    text.hash(&mut hasher);
    hasher.finish()
}

/// Where the article image sits in a news page's `__NEXT_DATA__` script:
/// `props.pageProps.page.blades[2].items[0].media.url`.
pub open spec fn image_path() -> Seq<Result<Seq<char>, nat>> {
    seq![
        Ok("props"@),
        Ok("pageProps"@),
        Ok("page"@),
        Ok("blades"@),
        Err(2nat),
        Ok("items"@),
        Err(0nat),
        Ok("media"@),
        Ok("url"@),
    ]
}

fn image_path_steps() -> (r: Vec<JsonStep>)
    ensures
        r@.map_values(|s: JsonStep| step_view(s)) == image_path(),
{
    let r = vec![
        JsonStep::Member("props"),
        JsonStep::Member("pageProps"),
        JsonStep::Member("page"),
        JsonStep::Member("blades"),
        JsonStep::Element(2),
        JsonStep::Member("items"),
        JsonStep::Element(0),
        JsonStep::Member("media"),
        JsonStep::Member("url"),
    ];
    assert(r@.map_values(|s: JsonStep| step_view(s)) =~= image_path());
    r
}

/// The image of a news page's articles, read from its `__NEXT_DATA__` JSON
/// text: the string at the image path, or empty when that is not a string;
/// `None` when the text is not JSON.
pub open spec fn next_data_image(next_data: Seq<char>) -> Option<Seq<char>> {
    match json_walk(next_data, image_path()) {
        None => None,
        Some(t) => match json_string(t) {
            None => None,
            Some(o) => Some(or_empty(o)),
        },
    }
}

/// The posted fields of an article, apart from its id: title, content,
/// url, image.
pub open spec fn riot_news_fields(
    id: RiotGameId,
    a: (Option<Seq<char>>, Option<Seq<char>>, Option<Seq<char>>),
    image: Seq<char>,
) -> (Seq<char>, Seq<char>, Seq<char>, Seq<char>) {
    (or_empty(a.1), or_empty(a.2), article_url(id, or_empty(a.0)), image)
}

/// The fields of a news item that are posted, apart from its id: title,
/// content, url, image.
pub open spec fn riot_news_posted_fields(n: RiotNews) -> (Seq<char>, Seq<char>, Seq<char>, Seq<char>) {
    (n.title@, n.content@, n.url@, n.image@)
}

impl Riot {
    /// The latest news of a page: its first article, none for a page
    /// without articles.
    pub fn latest(news: Vec<RiotNews>) -> (r: Option<RiotNews>)
        ensures
            news@.len() == 0 <==> r is None,
            r matches Some(n) ==> n == news@[0],
    {
        let mut news = news;
        if news.len() == 0 {
            None
        } else {
            Some(news.remove(0))
        }
    }

    /// The image text of a `__NEXT_DATA__` script.
    pub fn image_from_next_data(next_data: &str) -> (r: Option<String>)
        ensures
            opt_view(r) == next_data_image(next_data@),
    {
        let steps = image_path_steps();
        let cur = match walk_json(next_data, &steps) {
            Some(c) => c,
            None => return None,
        };
        match json_string_value(cur.as_str()) {
            None => None,
            Some(Some(s)) => Some(s),
            Some(None) => Some(String::new()),
        }
    }

    /// The news of a page's articles, given the page's image and the hash of
    /// each article's resolved link.
    pub fn news_from_parts(
        game_id: &str,
        articles: &Vec<RiotArticleFields>,
        image: &str,
        hashes: &Vec<u64>,
    ) -> (r: Vec<RiotNews>)
        requires
            hashes@.len() == articles@.len(),
        ensures
            r@.len() == articles@.len(),
            forall|i: int| 0 <= i < r@.len() ==> {
                &&& riot_news_posted_fields(#[trigger] r@[i]) == riot_news_fields(
                    riot_id_of(game_id@),
                    article_fields_view(articles@[i]),
                    image@,
                )
                &&& r@[i].gid@ == dec_digits(hashes@[i] as nat)
            },
    {
        let mut r: Vec<RiotNews> = Vec::new();
        let mut i: usize = 0;
        while i < articles.len()
            invariant
                i <= articles@.len(),
                hashes@.len() == articles@.len(),
                r@.len() == i,
                forall|j: int| 0 <= j < i ==> {
                    &&& riot_news_posted_fields(#[trigger] r@[j]) == riot_news_fields(
                        riot_id_of(game_id@),
                        article_fields_view(articles@[j]),
                        image@,
                    )
                    &&& r@[j].gid@ == dec_digits(hashes@[j] as nat)
                },
            decreases articles@.len() - i,
        {
            proof {
                lemma_empty_literal();
            }
            let a = &articles[i];
            let href = match &a.href {
                Some(h) => concat(h.as_str(), ""),
                None => String::new(),
            };
            let title = match &a.label {
                Some(l) => concat(l.as_str(), ""),
                None => String::new(),
            };
            let content = match &a.description {
                Some(d) => concat(d.as_str(), ""),
                None => String::new(),
            };
            let url = Riot::article_url(game_id, href.as_str());
            let news = RiotNews {
                title,
                content,
                url,
                image: concat(image, ""),
                gid: u64_to_text(hashes[i]),
            };
            proof {
                assert(title@ =~= or_empty(opt_view(a.label)));
                assert(content@ =~= or_empty(opt_view(a.description)));
                assert(href@ =~= or_empty(opt_view(a.href)));
                assert(news.image@ =~= image@);
            }
            r.push(news);
            i = i + 1;
        }
        r
    }

    /// Parses a news page into its articles' news, each with the decimal
    /// `DefaultHasher` hash of its link as id. `None` when there is an
    /// article and the page's `__NEXT_DATA__` text is not JSON (where the
    /// page itself would fail).
    pub fn parse_news(&self, game_id: &str, raw_html: String) -> (r: Option<Vec<RiotNews>>)
        ensures
            ({
                let arts = html_articles(
                    raw_html@,
                    "section[id=\"news\"] a[role=\"button\"]"@,
                    "href"@,
                    "aria-label"@,
                    "div[data-testid=\"card-description\"]"@,
                );
                let script = html_first_text(raw_html@, "script[id=\"__NEXT_DATA__\"]"@);
                let next_data = match script {
                    Some(Some(t)) => t,
                    _ => "{}"@,
                };
                &&& arts is Some
                &&& arts->0.len() > 0 ==> script is Some
                &&& (r is Some <==> (arts->0.len() > 0 ==> next_data_image(next_data) is Some))
                &&& (r matches Some(v) ==> {
                    &&& v@.len() == arts->0.len()
                    &&& forall|i: int| 0 <= i < v@.len() ==> {
                        &&& riot_news_posted_fields(#[trigger] v@[i]) == riot_news_fields(
                            riot_id_of(game_id@),
                            arts->0[i],
                            next_data_image(next_data)->0,
                        )
                        &&& v@[i].gid@ == dec_digits(default_hash_of(v@[i].url@) as nat)
                    }
                })
            }),
    {
        let articles = match select_articles(
            raw_html.as_str(),
            "section[id=\"news\"] a[role=\"button\"]",
            "href",
            "aria-label",
            "div[data-testid=\"card-description\"]",
        ) {
            Some(a) => a,
            None => return None,
        };
        let ghost av = articles@.map_values(|a: RiotArticleFields| article_fields_view(a));
        if articles.len() == 0 {
            return Some(Vec::new());
        }
        let script = match select_first_text(raw_html.as_str(), "script[id=\"__NEXT_DATA__\"]") {
            Some(s) => s,
            None => return None,
        };
        let next_data = match script {
            Some(t) => t,
            None => concat("{}", ""),
        };
        proof {
            lemma_empty_literal();
            assert("{}"@ + Seq::<char>::empty() =~= "{}"@);
        }
        let image = match Riot::image_from_next_data(next_data.as_str()) {
            Some(i) => i,
            None => return None,
        };
        let mut hashes: Vec<u64> = Vec::new();
        let mut i: usize = 0;
        while i < articles.len()
            invariant
                i <= articles@.len(),
                hashes@.len() == i,
                forall|j: int| 0 <= j < i ==> #[trigger] hashes@[j] == default_hash_of(
                    article_url(riot_id_of(game_id@), or_empty(opt_view(articles@[j].href))),
                ),
            decreases articles@.len() - i,
        {
            let href = match &articles[i].href {
                Some(h) => concat(h.as_str(), ""),
                None => String::new(),
            };
            let url = Riot::article_url(game_id, href.as_str());
            proof {
                lemma_empty_literal();
                assert(href@ =~= or_empty(opt_view(articles@[i as int].href)));
            }
            hashes.push(default_hash(url.as_str()));
            i = i + 1;
        }
        let news = Riot::news_from_parts(game_id, &articles, image.as_str(), &hashes);
        proof {
            assert forall|i: int| #![trigger news@[i]] 0 <= i < news@.len() implies news@[i].gid@
                == dec_digits(default_hash_of(news@[i].url@) as nat) by {
                assert(news@[i].gid@ == dec_digits(hashes@[i] as nat));
                assert(riot_news_posted_fields(news@[i]).2 == news@[i].url@);
            }
            assert forall|i: int| 0 <= i < news@.len() implies av[i] == article_fields_view(articles@[i]) by {}
        }
        Some(news)
    }
}

} // verus!
