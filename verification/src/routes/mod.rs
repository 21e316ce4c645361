pub mod health;
pub mod players;
pub mod status;
