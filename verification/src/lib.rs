//! MotorBot's decision logic: command parsing, guild configuration codecs,
//! patch-note text processing, and the rules of the points system.

pub mod bot;
pub mod db_client;
pub mod json;
pub mod patches_error;
pub mod platform;
pub mod plugin;
pub mod plugins;
pub mod riot;
pub mod steam;
pub mod storage;
pub mod text;
