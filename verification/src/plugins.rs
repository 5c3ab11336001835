//! The plugins of MotorBot: their descriptions and the decisions they make
//! on commands, messages and reactions.
pub mod coin_toss;
pub mod debug;
pub mod dice;
pub mod jokes;
pub mod patches;
pub mod ping;
pub mod points;
pub(crate) mod random;
pub mod time;
