pub mod player_service;
