//! Player request and response bodies, and the validation of requests.

use vstd::prelude::*;

verus! {

/// Smallest squad number a request may carry.
pub const MIN_SQUAD_NUMBER: u32 = 1;

/// Largest squad number a request may carry.
pub const MAX_SQUAD_NUMBER: u32 = 99;

/// Smallest number of characters of a required name.
pub const MIN_NAME_LENGTH: u64 = 1;

/// Body of a create or update request: a player without its identifier.
#[derive(Debug, Clone, PartialEq, Eq)]
pub struct PlayerRequest {
    pub first_name: String,
    pub middle_name: String,
    pub last_name: String,
    pub date_of_birth: String,
    pub squad_number: u32,
    pub position: String,
    pub abbr_position: String,
    pub team: String,
    pub league: String,
    pub starting11: bool,
}

/// A stored player, as the API returns it.
#[derive(Debug, PartialEq, Eq)]
pub struct PlayerResponse {
    pub id: String,
    pub first_name: String,
    pub middle_name: String,
    pub last_name: String,
    pub date_of_birth: String,
    pub squad_number: u32,
    pub position: String,
    pub abbr_position: String,
    pub team: String,
    pub league: String,
    pub starting11: bool,
}

/// The fields of a stored player as plain values, strings by their characters.
pub struct PlayerFields {
    pub id: Seq<char>,
    pub first_name: Seq<char>,
    pub middle_name: Seq<char>,
    pub last_name: Seq<char>,
    pub date_of_birth: Seq<char>,
    pub squad_number: u32,
    pub position: Seq<char>,
    pub abbr_position: Seq<char>,
    pub team: Seq<char>,
    pub league: Seq<char>,
    pub starting11: bool,
}

/// The fields of `player` as plain values.
pub open spec fn fields_of(player: PlayerResponse) -> PlayerFields {
    PlayerFields {
        id: player.id@,
        first_name: player.first_name@,
        middle_name: player.middle_name@,
        last_name: player.last_name@,
        date_of_birth: player.date_of_birth@,
        squad_number: player.squad_number,
        position: player.position@,
        abbr_position: player.abbr_position@,
        team: player.team@,
        league: player.league@,
        starting11: player.starting11,
    }
}

/// A field of a request that breaks its validation rule.
#[derive(Debug, Clone, Copy, PartialEq, Eq, Structural)]
pub enum InvalidField {
    /// `first_name` is shorter than `MIN_NAME_LENGTH` characters.
    FirstName,
    /// `last_name` is shorter than `MIN_NAME_LENGTH` characters.
    LastName,
    /// `squad_number` lies outside `MIN_SQUAD_NUMBER..=MAX_SQUAD_NUMBER`.
    SquadNumber,
}

/// The first name has at least `MIN_NAME_LENGTH` characters.
pub open spec fn first_name_valid(request: PlayerRequest) -> bool {
    MIN_NAME_LENGTH <= request.first_name@.len()
}

/// The last name has at least `MIN_NAME_LENGTH` characters.
pub open spec fn last_name_valid(request: PlayerRequest) -> bool {
    MIN_NAME_LENGTH <= request.last_name@.len()
}

/// The squad number lies in `MIN_SQUAD_NUMBER..=MAX_SQUAD_NUMBER`.
pub open spec fn squad_number_valid(request: PlayerRequest) -> bool {
    MIN_SQUAD_NUMBER <= request.squad_number <= MAX_SQUAD_NUMBER
}

/// A request that every validation rule accepts.
pub open spec fn request_is_valid(request: PlayerRequest) -> bool {
    &&& first_name_valid(request)
    &&& last_name_valid(request)
    &&& squad_number_valid(request)
}

/// The fields of `request` that break their rule, in declaration order.
pub open spec fn invalid_fields(request: PlayerRequest) -> Seq<InvalidField> {
    (if first_name_valid(request) { Seq::empty() } else { seq![InvalidField::FirstName] })
        + (if last_name_valid(request) { Seq::empty() } else { seq![InvalidField::LastName] })
        + (if squad_number_valid(request) { Seq::empty() } else { seq![InvalidField::SquadNumber] })
}

/// The record that a create request stores under identifier `id`.
pub open spec fn player_from_request(id: String, request: PlayerRequest) -> PlayerResponse {
    PlayerResponse {
        id,
        first_name: request.first_name,
        middle_name: request.middle_name,
        last_name: request.last_name,
        date_of_birth: request.date_of_birth,
        squad_number: request.squad_number,
        position: request.position,
        abbr_position: request.abbr_position,
        team: request.team,
        league: request.league,
        starting11: request.starting11,
    }
}

/// The record that an update request makes of `existing`: every field comes
/// from the request but the identifier and the squad number, which stay.
pub open spec fn updated_player(existing: PlayerResponse, request: PlayerRequest) -> PlayerResponse {
    PlayerResponse {
        id: existing.id,
        squad_number: existing.squad_number,
        ..player_from_request(existing.id, request)
    }
}

/// `validator`'s length rule on a string with only a lower bound:
/// calls `ValidateLength::validate_length(value, Some(min), None, None)`,
/// which compares the number of `char`s of `value` with `min`.
#[verifier::external_body]
fn length_at_least(value: &String, min: u64) -> (ok: bool)
    ensures
        ok == (min <= value@.len()),
{
    <String as validator::ValidateLength<u64>>::validate_length(value, Some(min), None, None)
}

/// `validator`'s range rule on a `u32` with both bounds inclusive:
/// calls `ValidateRange::validate_range(&value, Some(min), Some(max), None, None)`.
#[verifier::external_body]
fn within_range(value: u32, min: u32, max: u32) -> (ok: bool)
    ensures
        ok == (min <= value && value <= max),
{
    <u32 as validator::ValidateRange<u32>>::validate_range(&value, Some(min), Some(max), None, None)
}

impl PlayerRequest {
    /// Checks every validation rule and reports each field that breaks one.
    pub fn validate(&self) -> (result: Result<(), Vec<InvalidField>>)
        ensures
            result is Ok <==> request_is_valid(*self),
            result is Ok <==> (MIN_NAME_LENGTH <= self.first_name@.len() && MIN_NAME_LENGTH
                <= self.last_name@.len() && MIN_SQUAD_NUMBER <= self.squad_number
                <= MAX_SQUAD_NUMBER),
            result matches Err(fields) ==> fields@ == invalid_fields(*self),
    {
        let mut fields: Vec<InvalidField> = Vec::new();
        if !length_at_least(&self.first_name, MIN_NAME_LENGTH) {
            fields.push(InvalidField::FirstName);
        }
        if !length_at_least(&self.last_name, MIN_NAME_LENGTH) {
            fields.push(InvalidField::LastName);
        }
        if !within_range(self.squad_number, MIN_SQUAD_NUMBER, MAX_SQUAD_NUMBER) {
            fields.push(InvalidField::SquadNumber);
        }
        assert(fields@ =~= invalid_fields(*self));
        if fields.len() == 0 {
            Ok(())
        } else {
            Err(fields)
        }
    }
}

impl Clone for PlayerResponse {
    fn clone(&self) -> (copy: Self)
        ensures
            copy == *self,
    {
        PlayerResponse {
            id: self.id.clone(),
            first_name: self.first_name.clone(),
            middle_name: self.middle_name.clone(),
            last_name: self.last_name.clone(),
            date_of_birth: self.date_of_birth.clone(),
            squad_number: self.squad_number,
            position: self.position.clone(),
            abbr_position: self.abbr_position.clone(),
            team: self.team.clone(),
            league: self.league.clone(),
            starting11: self.starting11,
        }
    }
}

impl PlayerResponse {
    /// The record that a create request stores under identifier `id`.
    pub fn from_request(id: String, request: PlayerRequest) -> (player: PlayerResponse)
        ensures
            player == player_from_request(id, request),
            player.id == id,
            player.first_name == request.first_name,
            player.middle_name == request.middle_name,
            player.last_name == request.last_name,
            player.date_of_birth == request.date_of_birth,
            player.squad_number == request.squad_number,
            player.position == request.position,
            player.abbr_position == request.abbr_position,
            player.team == request.team,
            player.league == request.league,
            player.starting11 == request.starting11,
    {
        PlayerResponse {
            id,
            first_name: request.first_name,
            middle_name: request.middle_name,
            last_name: request.last_name,
            date_of_birth: request.date_of_birth,
            squad_number: request.squad_number,
            position: request.position,
            abbr_position: request.abbr_position,
            team: request.team,
            league: request.league,
            starting11: request.starting11,
        }
    }

    /// This record as an update request rewrites it: the identifier and the
    /// squad number stay, every other field comes from `request`.
    pub fn updated_with(&self, request: PlayerRequest) -> (player: PlayerResponse)
        ensures
            player == updated_player(*self, request),
            player.id == self.id,
            player.squad_number == self.squad_number,
            player.first_name == request.first_name,
            player.middle_name == request.middle_name,
            player.last_name == request.last_name,
            player.date_of_birth == request.date_of_birth,
            player.position == request.position,
            player.abbr_position == request.abbr_position,
            player.team == request.team,
            player.league == request.league,
            player.starting11 == request.starting11,
    {
        PlayerResponse {
            id: self.id.clone(),
            first_name: request.first_name,
            middle_name: request.middle_name,
            last_name: request.last_name,
            date_of_birth: request.date_of_birth,
            squad_number: self.squad_number,
            position: request.position,
            abbr_position: request.abbr_position,
            team: request.team,
            league: request.league,
            starting11: request.starting11,
        }
    }
}

/// A request is valid exactly when its first and last names each have at
/// least `MIN_NAME_LENGTH` characters, however long, and its squad number
/// lies between `MIN_SQUAD_NUMBER` and `MAX_SQUAD_NUMBER`; each broken rule
/// is reported, and only broken rules are.
pub proof fn lemma_validation_rules(request: PlayerRequest)
    ensures
        request_is_valid(request) <==> (MIN_NAME_LENGTH <= request.first_name@.len()
            && MIN_NAME_LENGTH <= request.last_name@.len() && MIN_SQUAD_NUMBER
            <= request.squad_number <= MAX_SQUAD_NUMBER),
        invalid_fields(request).contains(InvalidField::FirstName) <==> request.first_name@.len()
            < MIN_NAME_LENGTH,
        invalid_fields(request).contains(InvalidField::LastName) <==> request.last_name@.len()
            < MIN_NAME_LENGTH,
        invalid_fields(request).contains(InvalidField::SquadNumber) <==> (request.squad_number
            < MIN_SQUAD_NUMBER || MAX_SQUAD_NUMBER < request.squad_number),
        invalid_fields(request).len() == 0 <==> request_is_valid(request),
{
    let f = invalid_fields(request);
    if request.first_name@.len() < MIN_NAME_LENGTH {
        assert(f[0] == InvalidField::FirstName);
    }
    if request.last_name@.len() < MIN_NAME_LENGTH {
        let k = if request.first_name@.len() < MIN_NAME_LENGTH { 1int } else { 0int };
        assert(f[k] == InvalidField::LastName);
    }
    if request.squad_number < MIN_SQUAD_NUMBER || MAX_SQUAD_NUMBER < request.squad_number {
        assert(f[f.len() - 1] == InvalidField::SquadNumber);
    }
}

/// A record created from a request has the given identifier and every other
/// field of the request.
pub proof fn lemma_created_record_fields(id: String, request: PlayerRequest)
    ensures
        ({
            let player = player_from_request(id, request);
            &&& player.id == id
            &&& player.first_name == request.first_name
            &&& player.middle_name == request.middle_name
            &&& player.last_name == request.last_name
            &&& player.date_of_birth == request.date_of_birth
            &&& player.squad_number == request.squad_number
            &&& player.position == request.position
            &&& player.abbr_position == request.abbr_position
            &&& player.team == request.team
            &&& player.league == request.league
            &&& player.starting11 == request.starting11
        }),
{
}

/// An updated record keeps its identifier and squad number and takes every
/// other field from the request.
pub proof fn lemma_updated_record_fields(existing: PlayerResponse, request: PlayerRequest)
    ensures
        ({
            let player = updated_player(existing, request);
            &&& player.id == existing.id
            &&& player.squad_number == existing.squad_number
            &&& player.first_name == request.first_name
            &&& player.middle_name == request.middle_name
            &&& player.last_name == request.last_name
            &&& player.date_of_birth == request.date_of_birth
            &&& player.position == request.position
            &&& player.abbr_position == request.abbr_position
            &&& player.team == request.team
            &&& player.league == request.league
            &&& player.starting11 == request.starting11
        }),
{
}

} // verus!
