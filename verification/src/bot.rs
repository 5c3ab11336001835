//! Decisions of the bot itself: its reply to worrying messages, its log
//! level and the events it reports.
use vstd::prelude::*;
use crate::plugin::{user_mention, user_mention_text};
use crate::text::{concat, concat_all, concat_views, contains_spec, contains_text, lowercase_of, same_text, to_lowercase};

verus! {

/// The reply to a message that contains "kys": a call to calm down that
/// mentions the author; none for other messages.
pub open spec fn calm_down_text(content: Seq<char>, author_id: u64) -> Option<Seq<char>> {
    if contains_spec(content, "kys"@) {
        Some("Calm down before you hurt yourself "@ + user_mention(author_id))
    } else {
        None
    }
}

/// The reply to a message that contains "kys".
pub fn calm_down_reply(content: &str, author_id: u64) -> (r: Option<String>)
    ensures
        match r {
            Some(s) => calm_down_text(content@, author_id) == Some(s@),
            None => calm_down_text(content@, author_id) is None,
        },
{
    if contains_text(content, "kys") {
        let m = user_mention_text(author_id);
        Some(concat("Calm down before you hurt yourself ", m.as_str()))
    } else {
        None
    }
}

/// The levels of logging.
#[derive(Debug, Clone, Copy, PartialEq, Eq, Structural)]
pub enum LogLevel {
    Trace,
    Debug,
    Info,
    Warn,
    Error,
}

/// The log level that a setting names, once lower-cased; `Info` for any
/// other setting.
pub open spec fn log_level_of_lower(s: Seq<char>) -> LogLevel {
    if s == "trace"@ {
        LogLevel::Trace
    } else if s == "debug"@ {
        LogLevel::Debug
    } else if s == "info"@ {
        LogLevel::Info
    } else if s == "warn"@ {
        LogLevel::Warn
    } else if s == "error"@ {
        LogLevel::Error
    } else {
        LogLevel::Info
    }
}

/// The log level that a `LOG_LEVEL` setting names (in any case).
pub fn log_level_of(setting: &str) -> (r: LogLevel)
    ensures
        r == log_level_of_lower(lowercase_of(setting@)),
{
    let lower = to_lowercase(setting);
    let s = lower.as_str();
    if same_text(s, "trace") {
        LogLevel::Trace
    } else if same_text(s, "debug") {
        LogLevel::Debug
    } else if same_text(s, "info") {
        LogLevel::Info
    } else if same_text(s, "warn") {
        LogLevel::Warn
    } else if same_text(s, "error") {
        LogLevel::Error
    } else {
        LogLevel::Info
    }
}

/// The description of the event that reports the bot's start.
pub fn startup_text(version: &str) -> (r: String)
    ensures
        r@ == "<:lightning:1494777585874370600> MotorBot v"@ + version@ + " reporting for duty!"@,
{
    let a = concat("<:lightning:1494777585874370600> MotorBot v", version);
    concat(a.as_str(), " reporting for duty!")
}

/// The description of the event that reports a plugin's failure to handle
/// an interaction: the plugin's name in italics, then the error.
pub fn plugin_failure_text(plugin_name: &str, error: &str) -> (r: String)
    ensures
        r@ == "*"@ + plugin_name@ + "*\n"@ + error@,
{
    let parts = vec!["*", plugin_name, "*\n", error];
    let s = concat_all(&parts);
    proof {
        reveal_with_fuel(concat_views, 5);
    }
    s
}

} // verus!
