//! Errors of the patches plugin.
use vstd::prelude::*;
use crate::platform::{platform_name, Platform};
use crate::text::{concat_all, concat_views};

verus! {

/// Errors that the Patches plugin reports.
#[derive(Debug)]
pub enum PatchesError {
    /// A game ID was missing or invalid.
    InvalidGameId,
    /// A game platform was not a recognized platform like "steam" or "riot".
    InvalidGamePlatform,
    /// A game name was missing or invalid.
    InvalidGameName,
    /// A game thumbnail URL was missing or did not start with `http`.
    InvalidGameThumbnail,
    /// A game color was missing or not a `#` followed by six characters.
    InvalidGameColor,
    /// Fetching patch notes for a game failed.
    FetchPatchNotesFailed {
        /// The platform for which fetching patch notes failed
        platform: Platform,
        game_id: String,
    },
}

/// The message that describes an error (its `Display` form).
pub open spec fn patches_error_text(e: PatchesError) -> Seq<char> {
    match e {
        PatchesError::InvalidGameId => "Invalid game ID provided"@,
        PatchesError::InvalidGamePlatform => "Invalid game platform provided"@,
        PatchesError::InvalidGameName => "Invalid game name provided"@,
        PatchesError::InvalidGameThumbnail => "Invalid game thumbnail URL provided"@,
        PatchesError::InvalidGameColor => "Invalid game color provided"@,
        PatchesError::FetchPatchNotesFailed { platform, game_id } =>
            "Failed to fetch patch notes for game '"@ + game_id@ + "'on platform '"@
                + platform_name(platform) + "'"@,
    }
}

impl PatchesError {
    /// The message that describes this error.
    pub fn message(&self) -> (r: String)
        ensures
            r@ == patches_error_text(*self),
    {
        let parts: Vec<&str> = match self {
            PatchesError::InvalidGameId => vec!["Invalid game ID provided"],
            PatchesError::InvalidGamePlatform => vec!["Invalid game platform provided"],
            PatchesError::InvalidGameName => vec!["Invalid game name provided"],
            PatchesError::InvalidGameThumbnail => vec!["Invalid game thumbnail URL provided"],
            PatchesError::InvalidGameColor => vec!["Invalid game color provided"],
            PatchesError::FetchPatchNotesFailed { platform, game_id } => vec![
                "Failed to fetch patch notes for game '",
                game_id.as_str(),
                "'on platform '",
                platform.as_str(),
                "'",
            ],
        };
        let r = concat_all(&parts);
        proof {
            reveal_with_fuel(concat_views, 6);
        }
        r
    }
}

} // verus!
