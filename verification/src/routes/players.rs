//! Player endpoints: what each request is answered, given the collection.
//!
//! | Concern       | Key used       | Notes                              |
//! |---------------|----------------|------------------------------------|
//! | Surrogate key | UUID (`id`)    | Admin route: `GET /players/{uuid}` |
//! | Natural key   | `squad_number` | All mutation routes use this       |

use crate::models::player::{
    lemma_validation_rules, request_is_valid, PlayerRequest, PlayerResponse, MAX_SQUAD_NUMBER,
    MIN_NAME_LENGTH, MIN_SQUAD_NUMBER,
};
use crate::routes::status::StatusCode;
use crate::services::player_service::{
    self, after_create, after_delete, after_update, create_outcome, is_uuid_v4_text, CreateError,
    UpdateError,
};
use crate::state::player_collection::{
    find_by_id, find_by_squad_number, has_id, has_squad_number, PlayerCollection,
};
use vstd::prelude::*;

verus! {

/// What `PUT /players/squadnumber/{squad_number}` answers.
pub open spec fn update_response(
    players: Seq<PlayerResponse>,
    squad_number: u32,
    payload: PlayerRequest,
) -> Result<StatusCode, StatusCode> {
    if !request_is_valid(payload) {
        Err(StatusCode::UNPROCESSABLE_ENTITY)
    } else if has_squad_number(players, squad_number) {
        Ok(StatusCode::NO_CONTENT)
    } else {
        Err(StatusCode::NOT_FOUND)
    }
}

/// What `DELETE /players/squadnumber/{squad_number}` answers.
pub open spec fn delete_response(players: Seq<PlayerResponse>, squad_number: u32) -> Result<
    StatusCode,
    StatusCode,
> {
    if has_squad_number(players, squad_number) {
        Ok(StatusCode::NO_CONTENT)
    } else {
        Err(StatusCode::NOT_FOUND)
    }
}

/// The refusal that `POST /players` answers before any identifier is drawn:
/// `422` for an invalid payload, then `409` for a taken squad number.
pub open spec fn create_refusal(players: Seq<PlayerResponse>, payload: PlayerRequest) -> Option<
    StatusCode,
> {
    if !request_is_valid(payload) {
        Some(StatusCode::UNPROCESSABLE_ENTITY)
    } else if has_squad_number(players, payload.squad_number) {
        Some(StatusCode::CONFLICT)
    } else {
        None
    }
}

/// Validates a request payload; any rule it breaks answers `422`.
fn validate_payload(payload: &PlayerRequest) -> (result: Result<(), StatusCode>)
    ensures
        result is Ok <==> request_is_valid(*payload),
        result is Err ==> result == Err::<(), StatusCode>(StatusCode::UNPROCESSABLE_ENTITY),
{
    match payload.validate() {
        Ok(()) => Ok(()),
        Err(_) => Err(StatusCode::UNPROCESSABLE_ENTITY),
    }
}

/// GET /players: `200 OK` with every player.
pub fn get_all_players(players: &PlayerCollection) -> (result: Result<
    Vec<PlayerResponse>,
    StatusCode,
>)
    ensures
        result matches Ok(all) && all@ == players@,
{
    Ok(player_service::get_all(players))
}

/// GET /players/{id}: `200 OK` with the player that has that UUID, or
/// `404 Not Found`.
pub fn get_player_by_id(players: &PlayerCollection, id: &String) -> (result: Result<
    PlayerResponse,
    StatusCode,
>)
    ensures
        result == (match find_by_id(players@, id@) {
            Some(player) => Ok(player),
            None => Err(StatusCode::NOT_FOUND),
        }),
{
    match player_service::get_by_id(players, id) {
        Some(player) => Ok(player),
        None => Err(StatusCode::NOT_FOUND),
    }
}

/// GET /players/squadnumber/{squad_number}: `200 OK` with the player
/// wearing that number, or `404 Not Found`.
pub fn get_player_by_squad_number(players: &PlayerCollection, squad_number: u32) -> (result:
    Result<PlayerResponse, StatusCode>)
    ensures
        result == (match find_by_squad_number(players@, squad_number) {
            Some(player) => Ok(player),
            None => Err(StatusCode::NOT_FOUND),
        }),
{
    match player_service::get_by_squad_number(players, squad_number) {
        Some(player) => Ok(player),
        None => Err(StatusCode::NOT_FOUND),
    }
}

/// POST /players: creates a player under a new random UUID.
///
/// `201 Created` with the new player; `422 Unprocessable Entity` for a
/// payload that breaks a validation rule; `409 Conflict` when the squad
/// number is taken; `500 Internal Server Error` when the store refuses the
/// record (the new UUID is already stored).
pub fn create_player(players: &mut PlayerCollection, payload: PlayerRequest) -> (result: Result<
    (StatusCode, PlayerResponse),
    StatusCode,
>)
    ensures
        !request_is_valid(payload) ==> result == Err::<(StatusCode, PlayerResponse), StatusCode>(
            StatusCode::UNPROCESSABLE_ENTITY,
        ) && final(players)@ == old(players)@,
        match create_refusal(old(players)@, payload) {
            Some(status) => result == Err::<(StatusCode, PlayerResponse), StatusCode>(status),
            None => result is Ok || (result == Err::<(StatusCode, PlayerResponse), StatusCode>(
                StatusCode::INTERNAL_SERVER_ERROR,
            ) && exists|id: String|
                is_uuid_v4_text(id@) && #[trigger] has_id(old(players)@, id@)),
        },
        match result {
            Ok((status, player)) => {
                &&& status == StatusCode::CREATED
                &&& is_uuid_v4_text(player.id@)
                &&& player.first_name == payload.first_name
                &&& player.middle_name == payload.middle_name
                &&& player.last_name == payload.last_name
                &&& player.date_of_birth == payload.date_of_birth
                &&& player.squad_number == payload.squad_number
                &&& player.position == payload.position
                &&& player.abbr_position == payload.abbr_position
                &&& player.team == payload.team
                &&& player.league == payload.league
                &&& player.starting11 == payload.starting11

                &&& create_outcome(old(players)@, player.id, payload) == Ok::<
                    PlayerResponse,
                    CreateError,
                >(player)
                &&& final(players)@ == after_create(old(players)@, player.id, payload)
            },
            Err(_) => final(players)@ == old(players)@,
        },
{
    validate_payload(&payload)?;
    match player_service::create(players, payload) {
        Ok(response) => Ok((StatusCode::CREATED, response)),
        Err(CreateError::DuplicateSquadNumber) => Err(StatusCode::CONFLICT),
        Err(CreateError::Database(_)) => Err(StatusCode::INTERNAL_SERVER_ERROR),
    }
}

/// PUT /players/squadnumber/{squad_number}: rewrites the player wearing
/// that number from the payload. Its squad number and UUID stay, whatever
/// the payload holds.
///
/// `204 No Content` on success; `422 Unprocessable Entity` for a payload
/// that breaks a validation rule; `404 Not Found` when no player wears the
/// number.
pub fn update_player(players: &mut PlayerCollection, squad_number: u32, payload: PlayerRequest) -> (result:
    Result<StatusCode, StatusCode>)
    ensures
        !request_is_valid(payload) ==> result == Err::<StatusCode, StatusCode>(
            StatusCode::UNPROCESSABLE_ENTITY,
        ) && final(players)@ == old(players)@,
        result == update_response(old(players)@, squad_number, payload),
        final(players)@ == (if result is Ok {
            after_update(old(players)@, squad_number, payload)
        } else {
            old(players)@
        }),
{
    validate_payload(&payload)?;
    match player_service::update(players, squad_number, payload) {
        Ok(()) => Ok(StatusCode::NO_CONTENT),
        Err(UpdateError::NotFound) => Err(StatusCode::NOT_FOUND),
    }
}

/// DELETE /players/squadnumber/{squad_number}: removes the player wearing
/// that number.
///
/// `204 No Content` on success; `404 Not Found` when no player wears it.
pub fn delete_player(players: &mut PlayerCollection, squad_number: u32) -> (result: Result<
    StatusCode,
    StatusCode,
>)
    ensures
        result == delete_response(old(players)@, squad_number),
        final(players)@ == after_delete(old(players)@, squad_number),
{
    if player_service::delete(players, squad_number) {
        Ok(StatusCode::NO_CONTENT)
    } else {
        Err(StatusCode::NOT_FOUND)
    }
}

/// A payload whose first or last name has fewer than `MIN_NAME_LENGTH`
/// characters, or whose squad number lies outside
/// `MIN_SQUAD_NUMBER..=MAX_SQUAD_NUMBER`, is refused with `422` by both
/// `POST /players` and `PUT /players/squadnumber/{n}`, whatever is stored;
/// a payload that keeps every rule is refused with `422` by neither.
pub proof fn lemma_invalid_payload_is_unprocessable(
    players: Seq<PlayerResponse>,
    squad_number: u32,
    payload: PlayerRequest,
)
    ensures
        !(MIN_NAME_LENGTH <= payload.first_name@.len() && MIN_NAME_LENGTH
            <= payload.last_name@.len() && MIN_SQUAD_NUMBER <= payload.squad_number
            <= MAX_SQUAD_NUMBER) ==> {
            &&& create_refusal(players, payload) == Some(StatusCode::UNPROCESSABLE_ENTITY)
            &&& update_response(players, squad_number, payload) == Err::<StatusCode, StatusCode>(
                StatusCode::UNPROCESSABLE_ENTITY,
            )
        },
        (MIN_NAME_LENGTH <= payload.first_name@.len() && MIN_NAME_LENGTH
            <= payload.last_name@.len() && MIN_SQUAD_NUMBER <= payload.squad_number
            <= MAX_SQUAD_NUMBER) ==> {
            &&& create_refusal(players, payload) != Some(StatusCode::UNPROCESSABLE_ENTITY)
            &&& update_response(players, squad_number, payload) != Err::<StatusCode, StatusCode>(
                StatusCode::UNPROCESSABLE_ENTITY,
            )
        },
{
    lemma_validation_rules(payload);
}

} // verus!
