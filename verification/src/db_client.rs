//! The records of the document store that MotorBot kept scores and game
//! news in.
use vstd::prelude::*;

verus! {

/// A user's score record: the user id as text, and the score.
#[derive(Debug)]
pub struct UserScore {
    pub user_id: String,
    pub score: i32,
}

/// A monitored game's record: its id and platform, the id of the latest
/// posted news, its name, thumbnail and color.
#[derive(Debug)]
pub struct GameNews {
    pub game_id: String,
    pub platform: String,
    pub news_id: String,
    pub game_name: String,
    pub thumbnail: String,
    pub color: String,
}

} // verus!
