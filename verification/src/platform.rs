//! The platforms that games are monitored on.
use vstd::prelude::*;
use crate::patches_error::PatchesError;
use crate::text::same_text;

verus! {

/// A platform that publishes patch notes.
#[derive(Debug, Clone, Copy, PartialEq, Eq, Structural)]
pub enum Platform {
    /// Steam platform
    Steam,
    /// Riot platform
    Riot,
}

/// The name of a platform, as it is written and stored.
pub open spec fn platform_name(p: Platform) -> Seq<char> {
    match p {
        Platform::Steam => "steam"@,
        Platform::Riot => "riot"@,
    }
}

/// The platform that a name denotes, if any.
pub open spec fn platform_of_name(s: Seq<char>) -> Option<Platform> {
    if s == "steam"@ {
        Some(Platform::Steam)
    } else if s == "riot"@ {
        Some(Platform::Riot)
    } else {
        None
    }
}

impl Platform {
    /// Checks if the provided platform string is a valid platform
    /// (`steam` or `riot`).
    pub fn is_valid_platform(platform: &str) -> (r: bool)
        ensures
            r == (platform@ == "steam"@ || platform@ == "riot"@),
    {
        same_text(platform, "steam") || same_text(platform, "riot")
    }

    /// The platform that a name denotes; any other name is refused with
    /// `InvalidGamePlatform`.
    pub fn from_str(s: &str) -> (r: Result<Platform, PatchesError>)
        ensures
            r matches Ok(p) ==> platform_of_name(s@) == Some(p),
            r is Err <==> platform_of_name(s@) is None,
            r matches Err(e) ==> e is InvalidGamePlatform,
    {
        if same_text(s, "steam") {
            Ok(Platform::Steam)
        } else if same_text(s, "riot") {
            Ok(Platform::Riot)
        } else {
            Err(PatchesError::InvalidGamePlatform)
        }
    }

    /// The platform's name (its `Display` form).
    pub fn as_str(&self) -> (r: &'static str)
        ensures
            r@ == platform_name(*self),
    {
        match self {
            Platform::Steam => "steam",
            Platform::Riot => "riot",
        }
    }
}

/// A platform's name reads back as the same platform, and a name is valid
/// exactly when it reads as a platform.
pub proof fn lemma_platform_name_roundtrip(p: Platform, s: Seq<char>)
    ensures
        platform_of_name(platform_name(p)) == Some(p),
        (s == "steam"@ || s == "riot"@) <==> platform_of_name(s) is Some,
{
    reveal_strlit("steam");
    reveal_strlit("riot");
    assert("steam"@ != "riot"@) by {
        assert("steam"@.len() != "riot"@.len());
    }
}

} // verus!
