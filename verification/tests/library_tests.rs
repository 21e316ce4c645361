// Scenarios for the models, the collection, the services and the status
// codes, on concrete values.

use rust_samples_rocket_restful::models::player::{InvalidField, PlayerRequest, PlayerResponse};
use rust_samples_rocket_restful::routes::players::{create_player, delete_player, update_player};
use rust_samples_rocket_restful::routes::status::StatusCode;
use rust_samples_rocket_restful::services::player_service::{
    self, CreateError, UpdateError,
};
use rust_samples_rocket_restful::state::player_collection::{
    initialize_database, PlayerCollection, StoreError,
};
use rust_samples_rocket_restful::state::squad::argentina_squad;

const MESSI_ID: &str = "f10f398d-b2ff-40aa-acac-51f58d129bc7";

fn request(first: &str, last: &str, squad_number: u32) -> PlayerRequest {
    PlayerRequest {
        first_name: first.to_string(),
        middle_name: "".to_string(),
        last_name: last.to_string(),
        date_of_birth: "1996-07-09T00:00:00.000Z".to_string(),
        squad_number,
        position: "Central Midfield".to_string(),
        abbr_position: "CM".to_string(),
        team: "Real Betis Balompié".to_string(),
        league: "La Liga".to_string(),
        starting11: false,
    }
}

fn response(id: &str, squad_number: u32) -> PlayerResponse {
    PlayerResponse::from_request(id.to_string(), request("Test", "Player", squad_number))
}

#[test]
fn validate_accepts_a_complete_request() {
    assert_eq!(request("Giovani", "Lo Celso", 27).validate(), Ok(()));
}

#[test]
fn validate_accepts_the_squad_number_bounds() {
    assert_eq!(request("A", "B", 1).validate(), Ok(()));
    assert_eq!(request("A", "B", 99).validate(), Ok(()));
}

#[test]
fn validate_counts_characters_not_bytes() {
    // One character of two bytes is long enough.
    assert_eq!(request("É", "Ñ", 5).validate(), Ok(()));
}

#[test]
fn validate_reports_an_empty_first_name() {
    assert_eq!(request("", "Lo Celso", 27).validate(), Err(vec![InvalidField::FirstName]));
}

#[test]
fn validate_reports_an_empty_last_name() {
    assert_eq!(request("Giovani", "", 27).validate(), Err(vec![InvalidField::LastName]));
}

#[test]
fn validate_reports_a_squad_number_out_of_range() {
    assert_eq!(request("A", "B", 0).validate(), Err(vec![InvalidField::SquadNumber]));
    assert_eq!(request("A", "B", 100).validate(), Err(vec![InvalidField::SquadNumber]));
}

#[test]
fn validate_reports_every_broken_rule_in_field_order() {
    assert_eq!(
        request("", "", 0).validate(),
        Err(vec![InvalidField::FirstName, InvalidField::LastName, InvalidField::SquadNumber])
    );
}

#[test]
fn status_codes_have_their_http_numbers() {
    assert_eq!(StatusCode::OK.as_u16(), 200);
    assert_eq!(StatusCode::CREATED.as_u16(), 201);
    assert_eq!(StatusCode::NO_CONTENT.as_u16(), 204);
    assert_eq!(StatusCode::NOT_FOUND.as_u16(), 404);
    assert_eq!(StatusCode::CONFLICT.as_u16(), 409);
    assert_eq!(StatusCode::UNPROCESSABLE_ENTITY.as_u16(), 422);
    assert_eq!(StatusCode::INTERNAL_SERVER_ERROR.as_u16(), 500);
}

#[test]
fn seed_squad_is_numbered_one_to_twenty_six() {
    let squad = argentina_squad();
    assert_eq!(squad.len(), 26);
    for (i, player) in squad.iter().enumerate() {
        assert_eq!(player.squad_number as usize, i + 1);
    }
    let mut ids: Vec<&String> = squad.iter().map(|p| &p.id).collect();
    ids.sort();
    ids.dedup();
    assert_eq!(ids.len(), 26);
    assert_eq!(squad[9].id, MESSI_ID);
    assert_eq!(squad[9].first_name, "Lionel");
    assert_eq!(squad[22].first_name, "Damián");
    assert_eq!(squad[22].middle_name, "Emiliano");
    let database = initialize_database();
    assert_eq!(database.to_vec(), squad);
}

#[test]
fn insert_refuses_a_taken_identifier_before_a_taken_squad_number() {
    let mut players = PlayerCollection::new();
    assert_eq!(players.insert(response("a", 1)), Ok(()));
    assert_eq!(players.insert(response("a", 1)), Err(StoreError::DuplicateId));
    assert_eq!(players.insert(response("b", 1)), Err(StoreError::DuplicateSquadNumber));
    assert_eq!(players.insert(response("b", 2)), Ok(()));
    assert_eq!(players.len(), 2);
}

#[test]
fn from_players_leaves_out_players_that_share_a_key() {
    let players = PlayerCollection::from_players(vec![
        response("a", 1),
        response("a", 2),
        response("b", 1),
        response("c", 3),
    ]);
    assert_eq!(players.to_vec(), vec![response("a", 1), response("c", 3)]);
}

#[test]
fn create_with_id_refuses_a_taken_squad_number() {
    let mut players = initialize_database();
    let result = player_service::create_with_id(
        &mut players,
        "new-id".to_string(),
        request("Giovani", "Lo Celso", 10),
    );
    assert_eq!(result, Err(CreateError::DuplicateSquadNumber));
    assert_eq!(players.len(), 26);
}

#[test]
fn create_with_id_refuses_a_stored_identifier() {
    let mut players = initialize_database();
    let before = players.to_vec();
    let result = player_service::create_with_id(
        &mut players,
        MESSI_ID.to_string(),
        request("Giovani", "Lo Celso", 27),
    );
    assert_eq!(result, Err(CreateError::Database(StoreError::DuplicateId)));
    assert_eq!(players.to_vec(), before);
}

#[test]
fn created_player_is_found_by_identifier_and_squad_number() {
    let mut players = initialize_database();
    let created = player_service::create_with_id(
        &mut players,
        "lo-celso".to_string(),
        request("Giovani", "Lo Celso", 27),
    )
    .expect("created");
    assert_eq!(created, PlayerResponse::from_request("lo-celso".to_string(), request("Giovani", "Lo Celso", 27)));
    assert_eq!(players.len(), 27);
    assert_eq!(player_service::get_by_id(&players, &"lo-celso".to_string()), Some(created.clone()));
    assert_eq!(player_service::get_by_squad_number(&players, 27), Some(created));
}

#[test]
fn create_draws_a_fresh_identifier_each_time() {
    let mut players = PlayerCollection::new();
    let first = player_service::create(&mut players, request("A", "B", 1)).expect("created");
    let second = player_service::create(&mut players, request("C", "D", 2)).expect("created");
    for id in [&first.id, &second.id] {
        let chars: Vec<char> = id.chars().collect();
        assert_eq!(chars.len(), 36);
        for (i, c) in chars.iter().enumerate() {
            if i == 8 || i == 13 || i == 18 || i == 23 {
                assert_eq!(*c, '-');
            } else {
                assert!(c.is_ascii_digit() || ('a'..='f').contains(c));
            }
        }
        assert_eq!(chars[14], '4');
        assert!(['8', '9', 'a', 'b'].contains(&chars[19]));
    }
    assert_ne!(first.id, second.id);
    assert_eq!(players.len(), 2);
}

#[test]
fn update_keeps_identifier_and_squad_number() {
    let mut players = initialize_database();
    let before = player_service::get_by_squad_number(&players, 10).expect("found");
    let result = player_service::update(&mut players, 10, request("Leo", "Messi", 30));
    assert_eq!(result, Ok(()));
    let after = player_service::get_by_squad_number(&players, 10).expect("found");
    assert_eq!(after, before.updated_with(request("Leo", "Messi", 30)));
    assert_eq!(after.id, MESSI_ID);
    assert_eq!(after.squad_number, 10);
    assert_eq!(after.first_name, "Leo");
    assert_eq!(player_service::get_by_squad_number(&players, 30), None);
    assert_eq!(player_service::get_by_id(&players, &MESSI_ID.to_string()), Some(after));
}

#[test]
fn update_leaves_other_players_alone() {
    let mut players = initialize_database();
    let before = players.to_vec();
    player_service::update(&mut players, 10, request("Leo", "Messi", 10)).expect("updated");
    let after = players.to_vec();
    for i in 0..26 {
        if i != 9 {
            assert_eq!(after[i], before[i]);
        }
    }
}

#[test]
fn update_of_a_missing_squad_number_is_not_found() {
    let mut players = initialize_database();
    let before = players.to_vec();
    assert_eq!(
        player_service::update(&mut players, 40, request("A", "B", 40)),
        Err(UpdateError::NotFound)
    );
    assert_eq!(players.to_vec(), before);
}

#[test]
fn delete_removes_once() {
    let mut players = initialize_database();
    assert!(player_service::delete(&mut players, 10));
    assert_eq!(players.len(), 25);
    assert_eq!(player_service::get_by_squad_number(&players, 10), None);
    assert_eq!(player_service::get_by_id(&players, &MESSI_ID.to_string()), None);
    assert!(!player_service::delete(&mut players, 10));
    assert_eq!(players.len(), 25);
}

#[test]
fn delete_undoes_create() {
    let mut players = initialize_database();
    let before = players.to_vec();
    player_service::create_with_id(&mut players, "x".to_string(), request("A", "B", 50))
        .expect("created");
    assert!(player_service::delete(&mut players, 50));
    assert_eq!(players.to_vec(), before);
}

#[test]
fn refused_requests_leave_the_collection_unchanged() {
    let mut players = initialize_database();
    let before = players.to_vec();
    assert_eq!(create_player(&mut players, request("", "B", 27)).unwrap_err(), StatusCode::UNPROCESSABLE_ENTITY);
    assert_eq!(create_player(&mut players, request("A", "B", 10)).unwrap_err(), StatusCode::CONFLICT);
    assert_eq!(update_player(&mut players, 10, request("A", "", 10)).unwrap_err(), StatusCode::UNPROCESSABLE_ENTITY);
    assert_eq!(update_player(&mut players, 50, request("A", "B", 10)).unwrap_err(), StatusCode::NOT_FOUND);
    assert_eq!(delete_player(&mut players, 50).unwrap_err(), StatusCode::NOT_FOUND);
    assert_eq!(players.to_vec(), before);
}

#[test]
fn update_payload_squad_number_does_not_move_the_player() {
    let mut players = initialize_database();
    assert_eq!(update_player(&mut players, 23, request("Emiliano", "Martínez", 99)), Ok(StatusCode::NO_CONTENT));
    let moved = player_service::get_by_squad_number(&players, 99);
    assert_eq!(moved, None);
    let kept = player_service::get_by_squad_number(&players, 23).expect("found");
    assert_eq!(kept.first_name, "Emiliano");
}
