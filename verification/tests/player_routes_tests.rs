// Endpoint scenarios for the player routes, run against a collection seeded
// with the 26-player Argentina 2022 World Cup squad.

use rust_samples_rocket_restful::models::player::{PlayerRequest, PlayerResponse};
use rust_samples_rocket_restful::routes::health::health;
use rust_samples_rocket_restful::routes::players::{
    create_player, delete_player, get_all_players, get_player_by_id,
    get_player_by_squad_number, update_player,
};
use rust_samples_rocket_restful::services::player_service;
use rust_samples_rocket_restful::state::player_collection::{
    initialize_test_database, PlayerCollection,
};

// UUID of Lionel Messi in the seed.
const EXISTING_PLAYER_ID: &str = "f10f398d-b2ff-40aa-acac-51f58d129bc7";
// A well-formed UUID that no seeded player has.
const UNKNOWN_PLAYER_ID: &str = "c827540b-041b-48af-aca7-0dd384fc4b86";

fn setup_collection() -> PlayerCollection {
    initialize_test_database()
}

fn setup_collection_for_post() -> PlayerCollection {
    let mut players = initialize_test_database();
    // Lo Celso (squad 27) is not in the seed, so this deletes nothing.
    player_service::delete(&mut players, 27);
    players
}

// Giovani Lo Celso, squad 27
fn player_request_for_creation() -> PlayerRequest {
    PlayerRequest {
        first_name: "Giovani".to_string(),
        middle_name: "".to_string(),
        last_name: "Lo Celso".to_string(),
        date_of_birth: "1996-07-09T00:00:00.000Z".to_string(),
        squad_number: 27,
        position: "Central Midfield".to_string(),
        abbr_position: "CM".to_string(),
        team: "Real Betis Balompié".to_string(),
        league: "La Liga".to_string(),
        starting11: false,
    }
}

// Emiliano Martínez targeting squad 23; squadNumber is deliberately 99 (≠ 23)
// to show that the route parameter wins.
fn player_request_for_update() -> PlayerRequest {
    PlayerRequest {
        first_name: "Emiliano".to_string(),
        middle_name: "".to_string(),
        last_name: "Martínez".to_string(),
        date_of_birth: "1992-09-02T00:00:00.000Z".to_string(),
        squad_number: 99,
        position: "Goalkeeper".to_string(),
        abbr_position: "GK".to_string(),
        team: "Aston Villa FC".to_string(),
        league: "Premier League".to_string(),
        starting11: true,
    }
}

fn assert_is_messi(body: &PlayerResponse) {
    assert_eq!(body.id, EXISTING_PLAYER_ID);
    assert_eq!(body.first_name, "Lionel");
    assert_eq!(body.middle_name, "Andrés");
    assert_eq!(body.last_name, "Messi");
    assert_eq!(body.date_of_birth, "1987-06-24T00:00:00.000Z");
    assert_eq!(body.squad_number, 10);
    assert_eq!(body.position, "Right Winger");
    assert_eq!(body.abbr_position, "RW");
    assert_eq!(body.team, "Paris Saint-Germain");
    assert_eq!(body.league, "Ligue 1");
    assert_eq!(body.starting11, true);
}

// GET /health -----------------------------------------------------------------

#[test]
fn test_request_get_health_response_status_ok() {
    let status = health();
    assert_eq!(status.as_u16(), 200);
}

// GET /players ----------------------------------------------------------------

#[test]
fn test_request_get_players_all_response_status_ok() {
    let players = setup_collection();
    let body = get_all_players(&players).expect("200 OK");
    assert_eq!(body.len(), 26);
}

#[test]
fn test_request_get_players_all_response_body_structure() {
    let players = setup_collection();
    let body = get_all_players(&players).expect("200 OK");
    let first = &body[0];
    assert!(!first.id.is_empty());
    assert!(!first.first_name.is_empty());
    assert!(!first.last_name.is_empty());
    assert!(!first.date_of_birth.is_empty());
    assert!(first.squad_number >= 1);
    assert!(!first.position.is_empty());
    assert!(!first.abbr_position.is_empty());
    assert!(!first.team.is_empty());
    assert!(!first.league.is_empty());
}

// GET /players/{id} -----------------------------------------------------------

#[test]
fn test_request_get_player_by_id_existing_response_status_ok() {
    let players = setup_collection();
    let body = get_player_by_id(&players, &EXISTING_PLAYER_ID.to_string()).expect("200 OK");
    assert_is_messi(&body);
}

#[test]
fn test_request_get_player_by_id_nonexistent_response_status_not_found() {
    let players = setup_collection();
    let response =
        get_player_by_id(&players, &"00000000-0000-0000-0000-000000000000".to_string());
    assert_eq!(response.unwrap_err().as_u16(), 404);
}

#[test]
fn test_request_get_player_by_id_unknown_response_status_not_found() {
    let players = setup_collection();
    let response = get_player_by_id(&players, &UNKNOWN_PLAYER_ID.to_string());
    assert_eq!(response.unwrap_err().as_u16(), 404);
}

// GET /players/squadnumber/{squad_number} -------------------------------------

#[test]
fn test_request_get_player_by_squadnumber_existing_response_status_ok() {
    let players = setup_collection();
    let body = get_player_by_squad_number(&players, 10).expect("200 OK");
    assert_eq!(body.squad_number, 10);
    assert_is_messi(&body);
}

#[test]
fn test_request_get_player_by_squadnumber_nonexistent_response_status_not_found() {
    let players = setup_collection();
    let response = get_player_by_squad_number(&players, 99);
    assert_eq!(response.unwrap_err().as_u16(), 404);
}

// POST /players ---------------------------------------------------------------

#[test]
fn test_request_post_player_body_valid_response_status_created() {
    let mut players = setup_collection_for_post();
    let (status, body) =
        create_player(&mut players, player_request_for_creation()).expect("201 Created");
    assert_eq!(status.as_u16(), 201);
    assert!(!body.id.is_empty());
    assert_eq!(body.id.len(), 36); // UUID v4
    assert_eq!(body.first_name, "Giovani");
    assert_eq!(body.middle_name, "");
    assert_eq!(body.last_name, "Lo Celso");
    assert_eq!(body.date_of_birth, "1996-07-09T00:00:00.000Z");
    assert_eq!(body.squad_number, 27);
    assert_eq!(body.position, "Central Midfield");
    assert_eq!(body.abbr_position, "CM");
    assert_eq!(body.team, "Real Betis Balompié");
    assert_eq!(body.league, "La Liga");
    assert_eq!(body.starting11, false);
}

#[test]
fn test_request_post_player_body_duplicate_response_status_conflict() {
    let mut players = setup_collection();
    let _ = create_player(&mut players, player_request_for_creation());
    let response = create_player(&mut players, player_request_for_creation());
    assert_eq!(response.unwrap_err().as_u16(), 409);
}

// PUT /players/squadnumber/{squad_number} -------------------------------------

#[test]
fn test_request_put_player_squadnumber_existing_response_status_no_content() {
    let mut players = setup_collection();
    let status = update_player(&mut players, 23, player_request_for_update()).expect("204");
    assert_eq!(status.as_u16(), 204);
    let persisted = get_player_by_squad_number(&players, 23).expect("200 OK");
    assert_eq!(persisted.first_name, "Emiliano");
    assert_eq!(persisted.last_name, "Martínez");
    assert_eq!(persisted.team, "Aston Villa FC");
}

#[test]
fn test_request_put_player_squadnumber_nonexistent_response_status_not_found() {
    let mut players = setup_collection();
    let response = update_player(&mut players, 999, player_request_for_update());
    assert_eq!(response.unwrap_err().as_u16(), 404);
}

#[test]
fn test_request_put_player_squadnumber_unknown_response_status_not_found() {
    let mut players = setup_collection();
    let response = update_player(&mut players, 28, player_request_for_update());
    assert_eq!(response.unwrap_err().as_u16(), 404);
}

// POST /players — validation failures ----------------------------------------

#[test]
fn test_request_post_players_body_empty_first_name_response_status_unprocessable_entity() {
    let mut players = setup_collection_for_post();
    let mut body = player_request_for_creation();
    body.first_name = "".to_string();
    let response = create_player(&mut players, body);
    assert_eq!(response.unwrap_err().as_u16(), 422);
}

#[test]
fn test_request_post_players_body_squad_number_zero_response_status_unprocessable_entity() {
    let mut players = setup_collection_for_post();
    let mut body = player_request_for_creation();
    body.squad_number = 0;
    let response = create_player(&mut players, body);
    assert_eq!(response.unwrap_err().as_u16(), 422);
}

#[test]
fn test_request_post_players_body_squad_number_above_maximum_response_status_unprocessable_entity()
{
    let mut players = setup_collection_for_post();
    let mut body = player_request_for_creation();
    body.squad_number = 100;
    let response = create_player(&mut players, body);
    assert_eq!(response.unwrap_err().as_u16(), 422);
}

// PUT /players/squadnumber/{squad_number} — validation failures ---------------

#[test]
fn test_request_put_player_squadnumber_body_empty_last_name_response_status_unprocessable_entity()
{
    let mut players = setup_collection();
    let mut body = player_request_for_update();
    body.last_name = "".to_string();
    let response = update_player(&mut players, 23, body);
    assert_eq!(response.unwrap_err().as_u16(), 422);
}

#[test]
fn test_request_put_player_squadnumber_body_squad_number_zero_response_status_unprocessable_entity()
{
    let mut players = setup_collection();
    let mut body = player_request_for_update();
    body.squad_number = 0;
    let response = update_player(&mut players, 23, body);
    assert_eq!(response.unwrap_err().as_u16(), 422);
}

#[test]
fn test_request_put_player_squadnumber_body_squad_number_above_maximum_response_status_unprocessable_entity()
{
    let mut players = setup_collection();
    let mut body = player_request_for_update();
    body.squad_number = 100;
    let response = update_player(&mut players, 23, body);
    assert_eq!(response.unwrap_err().as_u16(), 422);
}

// DELETE /players/squadnumber/{squad_number} ----------------------------------

#[test]
fn test_request_delete_player_squadnumber_existing_response_status_no_content() {
    let mut players = setup_collection();
    let _ = create_player(&mut players, player_request_for_creation());
    let status = delete_player(&mut players, 27).expect("204");
    assert_eq!(status.as_u16(), 204);
}

#[test]
fn test_request_delete_player_squadnumber_nonexistent_response_status_not_found() {
    let mut players = setup_collection();
    let response = delete_player(&mut players, 999);
    assert_eq!(response.unwrap_err().as_u16(), 404);
}

#[test]
fn test_request_delete_player_squadnumber_unknown_response_status_not_found() {
    let mut players = setup_collection();
    let response = delete_player(&mut players, 28);
    assert_eq!(response.unwrap_err().as_u16(), 404);
}
