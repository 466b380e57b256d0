//! Census and play-mode classification for Quake level files.
//!
//! The library decodes a level file's entity dictionary, tallies the
//! gameplay-relevant entities into an [`EntityCount`], and derives a single
//! category label (Single Player, Capture the Flag, Team Fortress, Trick,
//! Race, Arena, Deathmatch, or Other) for the level's play mode.
//!
//! The entry point is [`BspInfo::from_bytes`]; [`BspInfo::from_records`]
//! runs the census and classifier on an already-decoded record sequence.

pub mod category;
pub mod census;
pub mod laws;
pub mod record;
pub mod report;
mod text;

pub use category::get_category;
pub use census::{
    Ammo, Armors, EntityCount, Healthpacks, Items, Monsters, Points, Powerups, Spawns, Triggers,
    Weapons,
};
pub use record::{get_string_value, EntityRecord};
pub use report::{BspInfo, DecodeError, Intermission, RaceRoute};
