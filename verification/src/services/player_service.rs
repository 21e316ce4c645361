//! Player operations: reading, creating, updating and deleting players of a
//! collection, keyed by identifier (reads) and by squad number (writes).

use crate::models::player::{
    player_from_request, updated_player, PlayerRequest, PlayerResponse,
};
use crate::state::player_collection::{
    can_admit, find_by_id, find_by_squad_number, has_id, has_squad_number, index_of_squad_number,
    keys_unique, lemma_found_by_id, lemma_found_by_squad_number, lemma_push_keeps_keys_unique,
    lemma_remove_keeps_keys_unique, lemma_update_keeps_keys_unique, PlayerCollection, StoreError,
};
use vstd::prelude::*;

verus! {

/// Why a player could not be created.
#[derive(Debug, Clone, Copy, PartialEq, Eq, Structural)]
pub enum CreateError {
    /// A stored player already wears the requested squad number.
    DuplicateSquadNumber,
    /// The store refused the new record.
    Database(StoreError),
}

/// Why a player could not be updated.
#[derive(Debug, Clone, Copy, PartialEq, Eq, Structural)]
pub enum UpdateError {
    /// No stored player wears the requested squad number.
    NotFound,
}

/// What creating a player from `request` under identifier `id` answers.
pub open spec fn create_outcome(
    players: Seq<PlayerResponse>,
    id: String,
    request: PlayerRequest,
) -> Result<PlayerResponse, CreateError> {
    if has_squad_number(players, request.squad_number) {
        Err(CreateError::DuplicateSquadNumber)
    } else if has_id(players, id@) {
        Err(CreateError::Database(StoreError::DuplicateId))
    } else {
        Ok(player_from_request(id, request))
    }
}

/// The players after creating one from `request` under identifier `id`.
pub open spec fn after_create(
    players: Seq<PlayerResponse>,
    id: String,
    request: PlayerRequest,
) -> Seq<PlayerResponse> {
    match create_outcome(players, id, request) {
        Ok(player) => players.push(player),
        Err(_) => players,
    }
}

/// What updating the player with squad number `squad_number` answers.
pub open spec fn update_outcome(players: Seq<PlayerResponse>, squad_number: u32) -> Result<
    (),
    UpdateError,
> {
    if has_squad_number(players, squad_number) {
        Ok(())
    } else {
        Err(UpdateError::NotFound)
    }
}

/// The players after updating the one with squad number `squad_number`
/// from `request`.
pub open spec fn after_update(
    players: Seq<PlayerResponse>,
    squad_number: u32,
    request: PlayerRequest,
) -> Seq<PlayerResponse> {
    if has_squad_number(players, squad_number) {
        let i = index_of_squad_number(players, squad_number);
        players.update(i, updated_player(players[i], request))
    } else {
        players
    }
}

/// The players after deleting the one with squad number `squad_number`.
pub open spec fn after_delete(players: Seq<PlayerResponse>, squad_number: u32) -> Seq<
    PlayerResponse,
> {
    if has_squad_number(players, squad_number) {
        players.remove(index_of_squad_number(players, squad_number))
    } else {
        players
    }
}

/// `c` is a lower-case hexadecimal digit.
pub open spec fn is_lower_hex_digit(c: char) -> bool {
    ('0' <= c && c <= '9') || ('a' <= c && c <= 'f')
}

/// `text` is a version-4 UUID in hyphenated lower-case form: 36 characters,
/// hyphens at 8, 13, 18 and 23, lower-case hexadecimal digits elsewhere, the
/// version digit `4` at 14 and a variant digit `8`, `9`, `a` or `b` at 19.
pub open spec fn is_uuid_v4_text(text: Seq<char>) -> bool {
    &&& text.len() == 36
    &&& forall|i: int|
        0 <= i < 36 ==> if i == 8 || i == 13 || i == 18 || i == 23 {
            text[i] == '-'
        } else {
            is_lower_hex_digit(#[trigger] text[i])
        }
    &&& text[14] == '4'
    &&& (text[19] == '8' || text[19] == '9' || text[19] == 'a' || text[19] == 'b')
}

/// A fresh identifier for a new player: `uuid::Uuid::new_v4()` written by
/// its `Display` impl. `new_v4` sets the version and variant bits of random
/// bits, and `Display` writes the hyphenated lower-case form; which UUID is
/// drawn is random and not stated.
#[verifier::external_body]
fn new_player_id() -> (id: String)
    ensures
        is_uuid_v4_text(id@),
{
    uuid::Uuid::new_v4().to_string()
}

/// Every stored player, in order.
pub fn get_all(players: &PlayerCollection) -> (all: Vec<PlayerResponse>)
    ensures
        all@ == players@,
{
    players.to_vec()
}

/// The player with identifier `id`, if one is stored.
pub fn get_by_id(players: &PlayerCollection, id: &String) -> (found: Option<PlayerResponse>)
    ensures
        found == find_by_id(players@, id@),
{
    match players.position_of_id(id) {
        Some(i) => Some(players.get(i).clone()),
        None => None,
    }
}

/// The player with squad number `squad_number`, if one is stored.
pub fn get_by_squad_number(players: &PlayerCollection, squad_number: u32) -> (found: Option<
    PlayerResponse,
>)
    ensures
        found == find_by_squad_number(players@, squad_number),
{
    match players.position_of_squad_number(squad_number) {
        Some(i) => Some(players.get(i).clone()),
        None => None,
    }
}

/// Creates a player from `request` under identifier `id`: refused when the
/// squad number is taken, or when the store already holds the identifier.
pub fn create_with_id(players: &mut PlayerCollection, id: String, request: PlayerRequest) -> (result:
    Result<PlayerResponse, CreateError>)
    ensures
        result == create_outcome(old(players)@, id, request),
        final(players)@ == after_create(old(players)@, id, request),
        keys_unique(final(players)@),
        result matches Ok(player) ==> {
            &&& player.id == id
            &&& player.first_name == request.first_name
            &&& player.middle_name == request.middle_name
            &&& player.last_name == request.last_name
            &&& player.date_of_birth == request.date_of_birth
            &&& player.squad_number == request.squad_number
            &&& player.position == request.position
            &&& player.abbr_position == request.abbr_position
            &&& player.team == request.team
            &&& player.league == request.league
            &&& player.starting11 == request.starting11
        },
{
    if players.position_of_squad_number(request.squad_number).is_some() {
        return Err(CreateError::DuplicateSquadNumber);
    }
    let player = PlayerResponse::from_request(id, request);
    let stored = player.clone();
    match players.insert(stored) {
        Ok(()) => Ok(player),
        Err(e) => Err(CreateError::Database(e)),
    }
}

/// Creates a player from `request` under a new random identifier.
pub fn create(players: &mut PlayerCollection, request: PlayerRequest) -> (result: Result<
    PlayerResponse,
    CreateError,
>)
    ensures
        keys_unique(final(players)@),
        result == Err::<PlayerResponse, CreateError>(CreateError::DuplicateSquadNumber)
            <==> has_squad_number(old(players)@, request.squad_number),
        match result {
            Ok(player) => {
                &&& is_uuid_v4_text(player.id@)
                &&& player.first_name == request.first_name
                &&& player.middle_name == request.middle_name
                &&& player.last_name == request.last_name
                &&& player.date_of_birth == request.date_of_birth
                &&& player.squad_number == request.squad_number
                &&& player.position == request.position
                &&& player.abbr_position == request.abbr_position
                &&& player.team == request.team
                &&& player.league == request.league
                &&& player.starting11 == request.starting11
                &&& result == create_outcome(old(players)@, player.id, request)
                &&& final(players)@ == after_create(old(players)@, player.id, request)
            },
            Err(CreateError::Database(e)) => {
                &&& e == StoreError::DuplicateId
                &&& !has_squad_number(old(players)@, request.squad_number)
                &&& exists|id: String|
                    is_uuid_v4_text(id@) && #[trigger] has_id(old(players)@, id@)
                &&& final(players)@ == old(players)@
            },
            Err(CreateError::DuplicateSquadNumber) => final(players)@ == old(players)@,
        },
{
    let id = new_player_id();
    let ghost drawn = id;
    let result = create_with_id(players, id, request);
    proof {
        if result matches Err(CreateError::Database(_)) {
            assert(is_uuid_v4_text(drawn@) && has_id(old(players)@, drawn@));
        }
    }
    result
}

/// Rewrites the player with squad number `squad_number` from `request`;
/// its identifier and squad number stay.
pub fn update(players: &mut PlayerCollection, squad_number: u32, request: PlayerRequest) -> (result:
    Result<(), UpdateError>)
    ensures
        result == update_outcome(old(players)@, squad_number),
        final(players)@ == after_update(old(players)@, squad_number, request),
        keys_unique(final(players)@),
{
    match players.position_of_squad_number(squad_number) {
        Some(i) => {
            let updated = players.get(i).updated_with(request);
            players.replace(i, updated);
            Ok(())
        },
        None => Err(UpdateError::NotFound),
    }
}

/// Deletes the player with squad number `squad_number`; answers whether
/// one was stored.
pub fn delete(players: &mut PlayerCollection, squad_number: u32) -> (deleted: bool)
    ensures
        deleted == has_squad_number(old(players)@, squad_number),
        final(players)@ == after_delete(old(players)@, squad_number),
        keys_unique(final(players)@),
{
    match players.position_of_squad_number(squad_number) {
        Some(i) => {
            let _ = players.remove(i);
            true
        },
        None => false,
    }
}

/// Creating, updating and deleting keep identifiers and squad numbers unique.
pub proof fn lemma_operations_keep_keys_unique(
    players: Seq<PlayerResponse>,
    id: String,
    squad_number: u32,
    request: PlayerRequest,
)
    requires
        keys_unique(players),
    ensures
        keys_unique(after_create(players, id, request)),
        keys_unique(after_update(players, squad_number, request)),
        keys_unique(after_delete(players, squad_number)),
{
    if create_outcome(players, id, request) is Ok {
        assert(can_admit(players, player_from_request(id, request)));
        lemma_push_keeps_keys_unique(players, player_from_request(id, request));
    }
    if has_squad_number(players, squad_number) {
        let i = index_of_squad_number(players, squad_number);
        lemma_update_keeps_keys_unique(players, i, updated_player(players[i], request));
        lemma_remove_keeps_keys_unique(players, i);
    }
}

/// A created player is found afterwards by its identifier and by its squad
/// number, and the collection has grown by one.
pub proof fn lemma_created_player_is_found(
    players: Seq<PlayerResponse>,
    id: String,
    request: PlayerRequest,
)
    requires
        keys_unique(players),
        create_outcome(players, id, request) is Ok,
    ensures
        find_by_id(after_create(players, id, request), id@) == Some(
            player_from_request(id, request),
        ),
        find_by_squad_number(after_create(players, id, request), request.squad_number) == Some(
            player_from_request(id, request),
        ),
        after_create(players, id, request).len() == players.len() + 1,
{
    let player = player_from_request(id, request);
    let after = players.push(player);
    lemma_push_keeps_keys_unique(players, player);
    lemma_found_by_id(after, players.len() as int);
    lemma_found_by_squad_number(after, players.len() as int);
}

/// Creating a player changes what no other squad number finds.
pub proof fn lemma_create_leaves_other_players(
    players: Seq<PlayerResponse>,
    id: String,
    request: PlayerRequest,
    other: u32,
)
    requires
        keys_unique(players),
        other != request.squad_number,
    ensures
        find_by_squad_number(after_create(players, id, request), other) == find_by_squad_number(
            players,
            other,
        ),
{
    if create_outcome(players, id, request) is Ok {
        let player = player_from_request(id, request);
        let after = players.push(player);
        lemma_push_keeps_keys_unique(players, player);
        if has_squad_number(players, other) {
            let i = index_of_squad_number(players, other);
            assert(after[i] == players[i]);
            lemma_found_by_squad_number(after, i);
        } else {
            assert(!has_squad_number(after, other)) by {
                if has_squad_number(after, other) {
                    let k = index_of_squad_number(after, other);
                    if k < players.len() {
                        assert(players[k].squad_number == other);
                    }
                }
            }
        }
    }
}

/// An updated player is found by its squad number with every field from the
/// request but its identifier and squad number, which stay; its identifier
/// still finds it, and the collection keeps its length.
pub proof fn lemma_updated_player_is_found(
    players: Seq<PlayerResponse>,
    squad_number: u32,
    request: PlayerRequest,
)
    requires
        keys_unique(players),
        has_squad_number(players, squad_number),
    ensures
        ({
            let existing = find_by_squad_number(players, squad_number).unwrap();
            let after = after_update(players, squad_number, request);
            &&& find_by_squad_number(after, squad_number) == Some(
                updated_player(existing, request),
            )
            &&& find_by_id(after, existing.id@) == Some(updated_player(existing, request))
            &&& updated_player(existing, request).id == existing.id
            &&& updated_player(existing, request).squad_number == squad_number
            &&& after.len() == players.len()
        }),
{
    let i = index_of_squad_number(players, squad_number);
    let updated = updated_player(players[i], request);
    let after = players.update(i, updated);
    lemma_update_keeps_keys_unique(players, i, updated);
    lemma_found_by_squad_number(after, i);
    lemma_found_by_id(after, i);
}

/// Updating a player changes what no other squad number finds.
pub proof fn lemma_update_leaves_other_players(
    players: Seq<PlayerResponse>,
    squad_number: u32,
    request: PlayerRequest,
    other: u32,
)
    requires
        keys_unique(players),
        other != squad_number,
    ensures
        find_by_squad_number(after_update(players, squad_number, request), other)
            == find_by_squad_number(players, other),
{
    if has_squad_number(players, squad_number) {
        let i = index_of_squad_number(players, squad_number);
        let after = players.update(i, updated_player(players[i], request));
        lemma_update_keeps_keys_unique(players, i, updated_player(players[i], request));
        if has_squad_number(players, other) {
            let j = index_of_squad_number(players, other);
            assert(after[j] == players[j]);
            lemma_found_by_squad_number(after, j);
        } else {
            assert(!has_squad_number(after, other)) by {
                if has_squad_number(after, other) {
                    let k = index_of_squad_number(after, other);
                    assert(players[k].squad_number == other);
                }
            }
        }
    }
}

/// A deleted squad number finds nothing afterwards, and deleting it again
/// changes nothing.
pub proof fn lemma_deleted_player_is_gone(players: Seq<PlayerResponse>, squad_number: u32)
    requires
        keys_unique(players),
    ensures
        find_by_squad_number(after_delete(players, squad_number), squad_number) == None::<
            PlayerResponse,
        >,
        after_delete(after_delete(players, squad_number), squad_number) == after_delete(
            players,
            squad_number,
        ),
        after_delete(players, squad_number).len() == (if has_squad_number(players, squad_number) {
            players.len() - 1
        } else {
            players.len() as int
        }),
{
    if has_squad_number(players, squad_number) {
        let i = index_of_squad_number(players, squad_number);
        let after = players.remove(i);
        assert(!has_squad_number(after, squad_number)) by {
            if has_squad_number(after, squad_number) {
                let k = index_of_squad_number(after, squad_number);
                let ok = if k < i { k } else { k + 1 };
                assert(after[k] == players[ok]);
                assert(players[ok].squad_number != players[i].squad_number);
            }
        }
    }
}

/// Deleting a player changes what no other squad number finds.
pub proof fn lemma_delete_leaves_other_players(
    players: Seq<PlayerResponse>,
    squad_number: u32,
    other: u32,
)
    requires
        keys_unique(players),
        other != squad_number,
    ensures
        find_by_squad_number(after_delete(players, squad_number), other) == find_by_squad_number(
            players,
            other,
        ),
{
    if has_squad_number(players, squad_number) {
        let i = index_of_squad_number(players, squad_number);
        let after = players.remove(i);
        lemma_remove_keeps_keys_unique(players, i);
        if has_squad_number(players, other) {
            let j = index_of_squad_number(players, other);
            assert(j != i);
            let k = if j < i { j } else { j - 1 };
            assert(after[k] == players[j]);
            lemma_found_by_squad_number(after, k);
        } else {
            assert(!has_squad_number(after, other)) by {
                if has_squad_number(after, other) {
                    let k = index_of_squad_number(after, other);
                    let ok = if k < i { k } else { k + 1 };
                    assert(after[k] == players[ok]);
                }
            }
        }
    }
}

/// Deleting the squad number of a player just created gives back the
/// collection as it was before.
pub proof fn lemma_delete_undoes_create(
    players: Seq<PlayerResponse>,
    id: String,
    request: PlayerRequest,
)
    requires
        keys_unique(players),
        create_outcome(players, id, request) is Ok,
    ensures
        after_delete(after_create(players, id, request), request.squad_number) == players,
{
    let player = player_from_request(id, request);
    let after = players.push(player);
    lemma_push_keeps_keys_unique(players, player);
    lemma_found_by_squad_number(after, players.len() as int);
    let i = index_of_squad_number(after, request.squad_number);
    if i != players.len() {
        assert(after[i].squad_number != after[players.len() as int].squad_number);
    }
    assert(after.remove(players.len() as int) =~= players);
}

/// Once a player is created, creating another with the same squad number is
/// refused as a duplicate, whatever identifier it would get.
pub proof fn lemma_create_again_conflicts(
    players: Seq<PlayerResponse>,
    id: String,
    request: PlayerRequest,
    other_id: String,
    other_request: PlayerRequest,
)
    requires
        create_outcome(players, id, request) is Ok,
        other_request.squad_number == request.squad_number,
    ensures
        create_outcome(after_create(players, id, request), other_id, other_request) == Err::<
            PlayerResponse,
            CreateError,
        >(CreateError::DuplicateSquadNumber),
{
    let after = after_create(players, id, request);
    assert(after[players.len() as int].squad_number == request.squad_number);
}

/// A created player is found by its squad number with the given identifier
/// and every other field of the request.
pub proof fn lemma_created_player_has_request_fields(
    players: Seq<PlayerResponse>,
    id: String,
    request: PlayerRequest,
)
    requires
        keys_unique(players),
        create_outcome(players, id, request) is Ok,
    ensures
        find_by_squad_number(after_create(players, id, request), request.squad_number) matches Some(
            player,
        ) && {
            &&& player.id == id
            &&& player.first_name == request.first_name
            &&& player.middle_name == request.middle_name
            &&& player.last_name == request.last_name
            &&& player.date_of_birth == request.date_of_birth
            &&& player.squad_number == request.squad_number
            &&& player.position == request.position
            &&& player.abbr_position == request.abbr_position
            &&& player.team == request.team
            &&& player.league == request.league
            &&& player.starting11 == request.starting11
        },
{
    lemma_created_player_is_found(players, id, request);
}

/// After an update, the player found by the squad number keeps its
/// identifier and squad number and has every other field of the request.
pub proof fn lemma_updated_player_has_request_fields(
    players: Seq<PlayerResponse>,
    squad_number: u32,
    request: PlayerRequest,
)
    requires
        keys_unique(players),
        has_squad_number(players, squad_number),
    ensures
        find_by_squad_number(after_update(players, squad_number, request), squad_number) matches Some(
            player,
        ) && {
            &&& player.id == find_by_squad_number(players, squad_number).unwrap().id
            &&& player.squad_number == squad_number
            &&& player.first_name == request.first_name
            &&& player.middle_name == request.middle_name
            &&& player.last_name == request.last_name
            &&& player.date_of_birth == request.date_of_birth
            &&& player.position == request.position
            &&& player.abbr_position == request.abbr_position
            &&& player.team == request.team
            &&& player.league == request.league
            &&& player.starting11 == request.starting11
        },
{
    lemma_updated_player_is_found(players, squad_number, request);
}

} // verus!
