//! Steam patch notes: turning a news item of Steam's news API into the text
//! that is posted.
use vstd::prelude::*;
use crate::json::{json_walk, step_view, walk_json, JsonStep};
use crate::text::{
    append_chars, chars_of, lemma_empty_literal, replace_all, replace_spec, string_of, trim, trim_spec,
};

verus! {

/// Steam's news endpoints.
pub struct Steam {}

/// The patch notes of a Steam game, ready to post.
pub struct SteamNews {
    pub title: String,
    pub content: String,
    pub url: String,
    pub image: String,
    pub gid: String,
}

/// The first news item of a Steam news response: each field as the JSON text
/// of the value found there (`"null"` where the field is missing).
pub struct SteamNewsItem {
    pub gid: String,
    pub contents: String,
    pub url: String,
    pub title: String,
}

/// Where a field of the first news item sits in a Steam news response:
/// `appnews.newsitems[0].<field>`.
pub open spec fn news_item_path(field: Seq<char>) -> Seq<Result<Seq<char>, nat>> {
    seq![Ok("appnews"@), Ok("newsitems"@), Err(0nat), Ok(field)]
}

/// The JSON text of a field of a Steam response's first news item.
pub open spec fn news_item_field(body: Seq<char>, field: Seq<char>) -> Option<Seq<char>> {
    json_walk(body, news_item_path(field))
}

fn news_item_steps(field: &'static str) -> (r: Vec<JsonStep>)
    ensures
        r@.map_values(|s: JsonStep| step_view(s)) == news_item_path(field@),
{
    let r = vec![
        JsonStep::Member("appnews"),
        JsonStep::Member("newsitems"),
        JsonStep::Element(0),
        JsonStep::Member(field),
    ];
    assert(r@.map_values(|s: JsonStep| step_view(s)) =~= news_item_path(field@));
    r
}

/// The BBCode rewrites applied, in order, to a news item's contents.
pub open spec fn bbcode_rules() -> Seq<(Seq<char>, Seq<char>)> {
    seq![
        ("\""@, ""@),
        ("\\\""@, "\""@),
        ("[b]"@, "**"@),
        ("[/b]"@, "**"@),
        ("[i]"@, "*"@),
        ("[/i]"@, "*"@),
        ("[u]"@, "__"@),
        ("[/u]"@, "__"@),
        ("[quote]"@, "> "@),
        ("[/quote]"@, ""@),
        ("\\n"@, "\n"@),
        ("[p]"@, ""@),
        ("[p align=\\start]"@, ""@),
        ("[/p]"@, "\n"@),
        ("[list]"@, ""@),
        ("[*]"@, "- "@),
        ("[/list]"@, ""@),
        ("[h1]"@, "## "@),
        ("[/h1]"@, ""@),
        ("[h2]"@, "### "@),
        ("[/h2]"@, ""@),
        ("[h3]"@, ""@),
        ("[/h3]"@, ""@),
    ]
}

fn bbcode_rule_table() -> (r: Vec<(&'static str, &'static str)>)
    ensures
        r@.map_values(|p: (&str, &str)| (p.0@, p.1@)) == bbcode_rules(),
{
    let r = vec![
        ("\"", ""),
        ("\\\"", "\""),
        ("[b]", "**"),
        ("[/b]", "**"),
        ("[i]", "*"),
        ("[/i]", "*"),
        ("[u]", "__"),
        ("[/u]", "__"),
        ("[quote]", "> "),
        ("[/quote]", ""),
        ("\\n", "\n"),
        ("[p]", ""),
        ("[p align=\\start]", ""),
        ("[/p]", "\n"),
        ("[list]", ""),
        ("[*]", "- "),
        ("[/list]", ""),
        ("[h1]", "## "),
        ("[/h1]", ""),
        ("[h2]", "### "),
        ("[/h2]", ""),
        ("[h3]", ""),
        ("[/h3]", ""),
    ];
    assert(r@.map_values(|p: (&str, &str)| (p.0@, p.1@)) =~= bbcode_rules());
    r
}

/// `s` after each rewrite of `rules` in turn.
pub open spec fn apply_rules(s: Seq<char>, rules: Seq<(Seq<char>, Seq<char>)>) -> Seq<char>
    decreases rules.len(),
{
    if rules.len() == 0 {
        s
    } else {
        let prev = apply_rules(s, rules.drop_last());
        replace_spec(prev, rules.last().0, rules.last().1)
    }
}

/// The number of bytes that a character takes in UTF-8.
pub open spec fn utf8_width(c: char) -> nat {
    if (c as u32) < 0x80 {
        1
    } else if (c as u32) < 0x800 {
        2
    } else if (c as u32) < 0x10000 {
        3
    } else {
        4
    }
}

/// The number of bytes that a text takes in UTF-8 (`str::len`).
pub open spec fn utf8_len(s: Seq<char>) -> nat
    decreases s.len(),
{
    if s.len() == 0 {
        0
    } else {
        utf8_len(s.drop_last()) + utf8_width(s.last())
    }
}

proof fn lemma_utf8_len_prefix(s: Seq<char>, k: int)
    requires
        0 <= k <= s.len(),
    ensures
        utf8_len(s.take(k)) <= utf8_len(s),
    decreases s.len(),
{
    if k < s.len() {
        lemma_utf8_len_prefix(s.drop_last(), k);
        assert(s.drop_last().take(k) =~= s.take(k));
    } else {
        assert(s.take(k) =~= s);
    }
}

/// Whether the UTF-8 length of `s` exceeds `limit`.
pub fn utf8_len_exceeds(s: &[char], limit: u64) -> (r: bool)
    ensures
        r == (utf8_len(s@) > limit),
{
    let mut total: u64 = 0;
    let mut i: usize = 0;
    while i < s.len()
        invariant
            i <= s@.len(),
            total == utf8_len(s@.take(i as int)),
            total <= limit,
        decreases s@.len() - i,
    {
        let c = s[i];
        let w: u64 = if (c as u32) < 0x80 {
            1
        } else if (c as u32) < 0x800 {
            2
        } else if (c as u32) < 0x10000 {
            3
        } else {
            4
        };
        proof {
            assert(s@.take(i + 1).drop_last() =~= s@.take(i as int));
            assert(s@.take(i + 1).last() == c);
        }
        if w > limit - total {
            proof {
                lemma_utf8_len_prefix(s@, i + 1);
            }
            return true;
        }
        total = total + w;
        i = i + 1;
    }
    proof {
        assert(s@.take(s@.len() as int) =~= s@);
    }
    false
}

/// The content as posted: at most 400 characters, followed by `...` when
/// the text is longer than 400 bytes.
pub open spec fn truncated_content(s: Seq<char>) -> Seq<char> {
    (if s.len() > 400 { s.take(400) } else { s }) + (if utf8_len(s) > 400 { "..."@ } else { ""@ })
}

/// Posted content holds at most 400 characters of the text and a
/// three-character ellipsis.
pub proof fn lemma_truncated_content_len(s: Seq<char>)
    ensures
        truncated_content(s).len() <= 403,
        s.len() <= 400 && utf8_len(s) <= 400 ==> truncated_content(s) == s,
{
    reveal_strlit("...");
    lemma_empty_literal();
    if s.len() <= 400 && utf8_len(s) <= 400 {
        assert(s + ""@ =~= s);
    }
}

/// The base URL that stands for `{STEAM_CLAN_IMAGE}` in image paths.
pub open spec fn clan_image_base() -> Seq<char> {
    "https://clan.akamai.steamstatic.com/images/"@
}

/// The image of a news item: the first path of an `[img]` tag, else the first
/// path of an `[img src=..]` tag (without backslashes), with the clan image
/// placeholder filled in; empty when there is neither.
pub open spec fn news_image(img_paths: Seq<Seq<char>>, img_src_paths: Seq<Seq<char>>) -> Seq<char> {
    if img_paths.len() > 0 {
        replace_spec(img_paths[0], "{STEAM_CLAN_IMAGE}"@, clan_image_base())
    } else if img_src_paths.len() > 0 {
        replace_spec(
            replace_spec(img_src_paths[0], "{STEAM_CLAN_IMAGE}"@, clan_image_base()),
            "\\"@,
            ""@,
        )
    } else {
        ""@
    }
}

/// A JSON text without its double quotes.
pub open spec fn unquoted(s: Seq<char>) -> Seq<char> {
    replace_spec(s, "\""@, ""@)
}

/// Names what `regex::Regex::new(pattern)` and then `captures_iter(text)` give:
/// `None` when the pattern does not compile, else the text of the first
/// capture group of each successive match (empty where it did not take part).
pub uninterp spec fn regex_group_matches(pattern: Seq<char>, text: Seq<char>) -> Option<Seq<Seq<char>>>;

/// Names what `regex::Regex::new(pattern)` and then `replace_all(text, "")` give:
/// `None` when the pattern does not compile, else the text with every match removed.
pub uninterp spec fn regex_removal(pattern: Seq<char>, text: Seq<char>) -> Option<Seq<char>>;

/// Calls `regex::Regex::new` and `Regex::captures_iter`, keeping the first
/// capture group of each match. Its result is believed to be
/// `regex_group_matches` of its arguments, and to be `Some` for the two image
/// tag patterns, which are valid and small (`Regex::new` fails only on a
/// syntax error or an exceeded size limit); nothing more of the regex
/// semantics is stated.
#[verifier::external_body]
fn regex_first_groups(pattern: &str, text: &str) -> (r: Option<Vec<String>>)
    ensures
        r is Some <==> regex_group_matches(pattern@, text@) is Some,
        pattern@ == img_pattern() || pattern@ == img_src_pattern() ==> r is Some,
        r matches Some(v) ==> regex_group_matches(pattern@, text@) == Some(
            v@.map_values(|s: String| s@),
        ),
{
    let re = regex::Regex::new(pattern).ok()?;
    Some(
        re.captures_iter(text).map(|c| c.get(1).map_or(String::new(), |m| m.as_str().to_string())).collect(),
    )
}

/// Calls `regex::Regex::new` and `Regex::replace_all` with an empty
/// replacement. Its result is believed to be `regex_removal` of its
/// arguments, and to be `Some` for the four tag patterns, which are valid and
/// small; nothing more of the regex semantics is stated.
#[verifier::external_body]
fn regex_remove_all(pattern: &str, text: &str) -> (r: Option<String>)
    ensures
        r is Some <==> regex_removal(pattern@, text@) is Some,
        pattern@ == img_pattern() || pattern@ == img_src_pattern() || pattern@ == url_pattern()
            || pattern@ == youtube_pattern() ==> r is Some,
        r matches Some(s) ==> regex_removal(pattern@, text@) == Some(s@),
{
    let re = regex::Regex::new(pattern).ok()?;
    Some(re.replace_all(text, "").into_owned())
}

/// The patterns of the tags that are taken out of the contents.
pub open spec fn img_pattern() -> Seq<char> { "\\[img](.*?)\\[/img]"@ }
pub open spec fn img_src_pattern() -> Seq<char> { "\\[img src=(.*?)]\\[/img]"@ }
pub open spec fn url_pattern() -> Seq<char> { "\\[url=(.*?)](.*?)\\[/url]"@ }
pub open spec fn youtube_pattern() -> Seq<char> { "\\[previewyoutube=(.*?)]\\[/previewyoutube]"@ }

/// The contents with all four kinds of tags removed, in order: `[img]`,
/// `[img src=..]`, `[url=..]` and `[previewyoutube=..]`.
pub open spec fn stripped_contents(content: Seq<char>) -> Option<Seq<char>> {
    match regex_removal(img_pattern(), content) {
        None => None,
        Some(a) => match regex_removal(img_src_pattern(), a) {
            None => None,
            Some(b) => match regex_removal(url_pattern(), b) {
                None => None,
                Some(c) => regex_removal(youtube_pattern(), c),
            },
        },
    }
}

/// The parsed news, given the results of the tag searches.
pub open spec fn news_from_parts(
    item_gid: Seq<char>,
    item_url: Seq<char>,
    item_title: Seq<char>,
    img_paths: Seq<Seq<char>>,
    img_src_paths: Seq<Seq<char>>,
    stripped: Seq<char>,
) -> (Seq<char>, Seq<char>, Seq<char>, Seq<char>, Seq<char>) {
    (
        unquoted(item_title),
        truncated_content(trim_spec(stripped)),
        unquoted(item_url),
        news_image(img_paths, img_src_paths),
        unquoted(item_gid),
    )
}

/// Which image is posted with Steam news: when the contents hold `[img]`
/// tags, the path of the first of them, with `{STEAM_CLAN_IMAGE}` replaced by
/// the clan image address; else, when they hold `[img src=..]` tags, the path
/// of the first of those, so replaced and without backslashes; else none.
pub proof fn lemma_first_image_posted(
    item_gid: Seq<char>,
    item_url: Seq<char>,
    item_title: Seq<char>,
    img_paths: Seq<Seq<char>>,
    img_src_paths: Seq<Seq<char>>,
    stripped: Seq<char>,
)
    ensures
        img_paths.len() > 0 ==> news_from_parts(item_gid, item_url, item_title, img_paths, img_src_paths, stripped).3
            == replace_spec(img_paths[0], "{STEAM_CLAN_IMAGE}"@, "https://clan.akamai.steamstatic.com/images/"@),
        img_paths.len() == 0 && img_src_paths.len() > 0 ==> news_from_parts(
            item_gid, item_url, item_title, img_paths, img_src_paths, stripped,
        ).3 == replace_spec(
            replace_spec(img_src_paths[0], "{STEAM_CLAN_IMAGE}"@, "https://clan.akamai.steamstatic.com/images/"@),
            "\\"@,
            ""@,
        ),
        img_paths.len() == 0 && img_src_paths.len() == 0 ==> news_from_parts(
            item_gid, item_url, item_title, img_paths, img_src_paths, stripped,
        ).3.len() == 0,
{
    reveal_strlit("");
}

/// The fields of a `SteamNews`: title, content, url, image, gid.
pub open spec fn news_fields(n: SteamNews) -> (Seq<char>, Seq<char>, Seq<char>, Seq<char>, Seq<char>) {
    (n.title@, n.content@, n.url@, n.image@, n.gid@)
}

fn replace_str(s: &str, from: &str, to: &str) -> (r: Vec<char>)
    ensures
        r@ == replace_spec(s@, from@, to@),
{
    let cs = chars_of(s);
    let f = chars_of(from);
    let t = chars_of(to);
    replace_all(cs.as_slice(), f.as_slice(), t.as_slice())
}

impl Steam {
    pub fn new() -> (r: Steam) {
        Steam {}
    }

    /// A news item's contents with the BBCode rewrites applied.
    pub fn rewrite_bbcode(contents: &str) -> (r: String)
        ensures
            r@ == apply_rules(contents@, bbcode_rules()),
    {
        let rules = bbcode_rule_table();
        let ghost rv = rules@.map_values(|p: (&str, &str)| (p.0@, p.1@));
        let mut cur = chars_of(contents);
        let mut i: usize = 0;
        while i < rules.len()
            invariant
                i <= rules@.len(),
                rv == rules@.map_values(|p: (&str, &str)| (p.0@, p.1@)),
                cur@ == apply_rules(contents@, rv.take(i as int)),
            decreases rules@.len() - i,
        {
            let (from, to) = rules[i];
            let f = chars_of(from);
            let t = chars_of(to);
            let next = replace_all(cur.as_slice(), f.as_slice(), t.as_slice());
            proof {
                assert(rv.take(i + 1).drop_last() =~= rv.take(i as int));
                assert(rv.take(i + 1).last() == (from@, to@));
            }
            cur = next;
            i = i + 1;
        }
        proof {
            assert(rv.take(rules@.len() as int) =~= rv);
        }
        string_of(cur.as_slice())
    }

    /// Assembles the news from a news item and the results of the tag
    /// searches over its rewritten contents.
    pub fn news_from_parts(
        item: &SteamNewsItem,
        img_paths: &Vec<String>,
        img_src_paths: &Vec<String>,
        stripped: &str,
    ) -> (r: SteamNews)
        ensures
            news_fields(r) == news_from_parts(
                item.gid@,
                item.url@,
                item.title@,
                img_paths@.map_values(|s: String| s@),
                img_src_paths@.map_values(|s: String| s@),
                stripped@,
            ),
    {
        let gid = string_of(replace_str(item.gid.as_str(), "\"", "").as_slice());
        let url = string_of(replace_str(item.url.as_str(), "\"", "").as_slice());
        let title = string_of(replace_str(item.title.as_str(), "\"", "").as_slice());
        let clan = "https://clan.akamai.steamstatic.com/images/";
        let image: Vec<char> = if img_paths.len() > 0 {
            replace_str(img_paths[0].as_str(), "{STEAM_CLAN_IMAGE}", clan)
        } else if img_src_paths.len() > 0 {
            let filled = string_of(
                replace_str(img_src_paths[0].as_str(), "{STEAM_CLAN_IMAGE}", clan).as_slice(),
            );
            replace_str(filled.as_str(), "\\", "")
        } else {
            Vec::new()
        };
        let body = chars_of(stripped);
        let trimmed = trim(body.as_slice());
        let mut content: Vec<char> = Vec::new();
        let mut k: usize = 0;
        while k < trimmed.len() && k < 400
            invariant
                k <= trimmed@.len(),
                k <= 400,
                content@ == trimmed@.take(k as int),
            decreases trimmed@.len() - k,
        {
            content.push(trimmed[k]);
            proof {
                assert(trimmed@.take(k as int).push(trimmed@[k as int]) =~= trimmed@.take(k + 1));
            }
            k = k + 1;
        }
        proof {
            if trimmed@.len() <= 400 {
                assert(trimmed@.take(k as int) =~= trimmed@);
            }
        }
        let ellipsis = if utf8_len_exceeds(trimmed.as_slice(), 400) { "..." } else { "" };
        let e = chars_of(ellipsis);
        append_chars(&mut content, e.as_slice());
        let r = SteamNews {
            title,
            content: string_of(content.as_slice()),
            url,
            image: string_of(image.as_slice()),
            gid,
        };
        proof {
            let a = img_paths@.map_values(|s: String| s@);
            let b = img_src_paths@.map_values(|s: String| s@);
            reveal_strlit("");
            if img_paths@.len() > 0 {
                assert(a[0] == img_paths@[0]@);
            } else if img_src_paths@.len() > 0 {
                assert(b[0] == img_src_paths@[0]@);
            }
            assert(image@ == news_image(a, b));
        }
        r
    }

    /// The first news item of a Steam news response body, each field as the
    /// JSON text found at `appnews.newsitems[0].<field>` (`null` where it is
    /// missing). `None` when the body is not JSON.
    pub fn news_item(body: &str) -> (r: Option<SteamNewsItem>)
        ensures
            r is Some <==> (news_item_field(body@, "gid"@) is Some
                && news_item_field(body@, "contents"@) is Some
                && news_item_field(body@, "url"@) is Some
                && news_item_field(body@, "title"@) is Some),
            r matches Some(i) ==> {
                &&& news_item_field(body@, "gid"@) == Some(i.gid@)
                &&& news_item_field(body@, "contents"@) == Some(i.contents@)
                &&& news_item_field(body@, "url"@) == Some(i.url@)
                &&& news_item_field(body@, "title"@) == Some(i.title@)
            },
    {
        let gid = walk_json(body, &news_item_steps("gid"));
        let contents = walk_json(body, &news_item_steps("contents"));
        let url = walk_json(body, &news_item_steps("url"));
        let title = walk_json(body, &news_item_steps("title"));
        match (gid, contents, url, title) {
            (Some(gid), Some(contents), Some(url), Some(title)) => Some(SteamNewsItem { gid, contents, url, title }),
            _ => None,
        }
    }

    /// Parses the first news item of a Steam news response into the news
    /// that is posted. It is always `Some`: the tag patterns all compile.
    pub fn parse_response(&self, item: &SteamNewsItem) -> (r: Option<SteamNews>)
        ensures
            ({
                let content = apply_rules(item.contents@, bbcode_rules());
                let imgs = regex_group_matches(img_pattern(), content);
                let srcs = regex_group_matches(img_src_pattern(), content);
                let stripped = stripped_contents(content);
                &&& r is Some
                &&& imgs is Some && srcs is Some && stripped is Some
                &&& (r matches Some(n) ==> news_fields(n) == news_from_parts(
                    item.gid@,
                    item.url@,
                    item.title@,
                    imgs->0,
                    srcs->0,
                    stripped->0,
                ))
            }),
    {
        let content = Steam::rewrite_bbcode(item.contents.as_str());
        let imgs = match regex_first_groups("\\[img](.*?)\\[/img]", content.as_str()) {
            Some(v) => v,
            None => return None,
        };
        let srcs = match regex_first_groups("\\[img src=(.*?)]\\[/img]", content.as_str()) {
            Some(v) => v,
            None => return None,
        };
        let a = match regex_remove_all("\\[img](.*?)\\[/img]", content.as_str()) {
            Some(s) => s,
            None => return None,
        };
        let b = match regex_remove_all("\\[img src=(.*?)]\\[/img]", a.as_str()) {
            Some(s) => s,
            None => return None,
        };
        let c = match regex_remove_all("\\[url=(.*?)](.*?)\\[/url]", b.as_str()) {
            Some(s) => s,
            None => return None,
        };
        let d = match regex_remove_all("\\[previewyoutube=(.*?)]\\[/previewyoutube]", c.as_str()) {
            Some(s) => s,
            None => return None,
        };
        Some(Steam::news_from_parts(item, &imgs, &srcs, d.as_str()))
    }
}

} // verus!
