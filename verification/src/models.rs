//! The records that are asked for most often, under a short path.

pub use crate::live::models::{GameStats, PlayerItem, PlayerScore};
