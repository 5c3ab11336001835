//! What every plugin describes of itself, and the errors that plugins report.
use vstd::prelude::*;
use crate::text::concat;

verus! {

/// A plugin's name, description and version.
pub struct PluginInfo {
    pub name: String,
    pub description: String,
    pub version: String,
}

/// Whether a plugin's information holds the given texts.
pub open spec fn info_is(info: PluginInfo, name: Seq<char>, description: Seq<char>, version: Seq<char>) -> bool {
    &&& info.name@ == name
    &&& info.description@ == description
    &&& info.version@ == version
}

impl PluginInfo {
    /// Builds a plugin's information from its texts.
    pub fn new(name: &str, description: &str, version: &str) -> (r: PluginInfo)
        ensures
            info_is(r, name@, description@, version@),
    {
        PluginInfo { name: name.to_owned(), description: description.to_owned(), version: version.to_owned() }
    }
}

/// Errors that plugins report while handling an event.
#[derive(Debug)]
pub enum PluginError {
    /// Plugin expected a UserId but got None
    MissingUserId,
    /// Plugin expected a ChannelId but got None
    MissingChannelId,
    /// Plugin expected an environment variable to be set but it was missing
    MissingEnvironmentVariable {
        /// The name of the missing environment variable
        var_name: String,
    },
    /// Plugin expected something to happen in a guild context but it was used
    /// somewhere else (e.g. in a DM)
    ExpectedGuild,
    /// A channel was expected but the provided option was either not a channel
    /// or was missing entirely.
    InvalidChannel,
    /// A user was expected but the provided option was either not a user
    /// or was missing entirely.
    InvalidUser,
    /// A subcommand option was either not a subcommand or was missing entirely.
    InvalidSubCommand,
    /// An internal API answered with something that could not be used;
    /// `reason` says what was wrong with it.
    InvalidInternalAPIResponse { reason: String },
    /// The plugin is in an invalid internal state.
    InvalidInternalState,
}

/// The message that describes a plugin error (its `Display` form).
pub open spec fn plugin_error_text(e: PluginError) -> Seq<char> {
    match e {
        PluginError::MissingUserId => "Expected a UserId but got None"@,
        PluginError::MissingChannelId => "Expected a ChannelId but got None"@,
        PluginError::MissingEnvironmentVariable { var_name } => "Missing environment variable: "@ + var_name@,
        PluginError::ExpectedGuild => "ExpectedGuild"@,
        PluginError::InvalidChannel => "Expected a channel option but got an invalid value or none at all"@,
        PluginError::InvalidUser => "Expected a user option but got an invalid value or none at all"@,
        PluginError::InvalidSubCommand => "Expected a subcommand option but got an invalid value or none at all"@,
        PluginError::InvalidInternalAPIResponse { reason } =>
            "Received an invalid response from an internal API: "@ + reason@,
        PluginError::InvalidInternalState => "Plugin is in an invalid internal state"@,
    }
}

impl PluginError {
    /// The message that describes this error.
    pub fn message(&self) -> (r: String)
        ensures
            r@ == plugin_error_text(*self),
    {
        match self {
            PluginError::MissingUserId => "Expected a UserId but got None".to_owned(),
            PluginError::MissingChannelId => "Expected a ChannelId but got None".to_owned(),
            PluginError::MissingEnvironmentVariable { var_name } => concat(
                "Missing environment variable: ",
                var_name.as_str(),
            ),
            PluginError::ExpectedGuild => "ExpectedGuild".to_owned(),
            PluginError::InvalidChannel => "Expected a channel option but got an invalid value or none at all".to_owned(),
            PluginError::InvalidUser => "Expected a user option but got an invalid value or none at all".to_owned(),
            PluginError::InvalidSubCommand => "Expected a subcommand option but got an invalid value or none at all".to_owned(),
            PluginError::InvalidInternalAPIResponse { reason } => concat(
                "Received an invalid response from an internal API: ",
                reason.as_str(),
            ),
            PluginError::InvalidInternalState => "Plugin is in an invalid internal state".to_owned(),
        }
    }
}

/// The reply to a subcommand that a plugin does not know: a warning that
/// lists the valid subcommands.
pub open spec fn poor_choice_text(valid: Seq<char>) -> Seq<char> {
    "<:warn:1495130104613965994> **You've chosen... poorly.**\nPlease select a valid subcommand: "@ + valid
}

/// Builds the reply to an unknown subcommand.
pub fn poor_choice(valid: &str) -> (r: String)
    ensures
        r@ == poor_choice_text(valid@),
{
    concat("<:warn:1495130104613965994> **You've chosen... poorly.**\nPlease select a valid subcommand: ", valid)
}

/// A channel mention: `<#id>`.
pub open spec fn channel_mention(id: u64) -> Seq<char> {
    "<#"@ + crate::text::dec_digits(id as nat) + ">"@
}

pub fn channel_mention_text(id: u64) -> (r: String)
    ensures
        r@ == channel_mention(id),
{
    let digits = crate::text::u64_to_text(id);
    let a = concat("<#", digits.as_str());
    concat(a.as_str(), ">")
}

/// A user mention: `<@id>`.
pub open spec fn user_mention(id: u64) -> Seq<char> {
    "<@"@ + crate::text::dec_digits(id as nat) + ">"@
}

pub fn user_mention_text(id: u64) -> (r: String)
    ensures
        r@ == user_mention(id),
{
    let digits = crate::text::u64_to_text(id);
    let a = concat("<@", digits.as_str());
    concat(a.as_str(), ">")
}

} // verus!
