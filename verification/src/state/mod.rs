pub mod player_collection;
pub mod squad;
