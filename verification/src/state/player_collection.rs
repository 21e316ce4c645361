//! The collection of players that the API serves: an ordered list in which
//! no two players share an identifier or a squad number.

use crate::models::player::{fields_of, PlayerResponse};
use crate::state::squad::{
    argentina_squad, lemma_seed_id_prefix, lemma_seed_ids_found_from_each, lemma_seed_squad_number,
    seed_fields, seed_id_prefix, seed_ids_found,
};
use vstd::prelude::*;

verus! {

/// No two players of `players` share an identifier or a squad number.
pub open spec fn keys_unique(players: Seq<PlayerResponse>) -> bool {
    &&& forall|i: int, j: int|
        0 <= i < players.len() && 0 <= j < players.len() && i != j ==> #[trigger] players[i].id@
            != #[trigger] players[j].id@
    &&& forall|i: int, j: int|
        0 <= i < players.len() && 0 <= j < players.len() && i != j
            ==> #[trigger] players[i].squad_number != #[trigger] players[j].squad_number
}

/// Some player of `players` has identifier `id`.
pub open spec fn has_id(players: Seq<PlayerResponse>, id: Seq<char>) -> bool {
    exists|i: int| 0 <= i < players.len() && #[trigger] players[i].id@ == id
}

/// Some player of `players` wears squad number `squad_number`.
pub open spec fn has_squad_number(players: Seq<PlayerResponse>, squad_number: u32) -> bool {
    exists|i: int| 0 <= i < players.len() && #[trigger] players[i].squad_number == squad_number
}

/// The position of a player of `players` with identifier `id`
/// (meaningful where `has_id` holds).
pub open spec fn index_of_id(players: Seq<PlayerResponse>, id: Seq<char>) -> int {
    choose|i: int| 0 <= i < players.len() && #[trigger] players[i].id@ == id
}

/// The position of a player of `players` with squad number `squad_number`
/// (meaningful where `has_squad_number` holds).
pub open spec fn index_of_squad_number(players: Seq<PlayerResponse>, squad_number: u32) -> int {
    choose|i: int| 0 <= i < players.len() && #[trigger] players[i].squad_number == squad_number
}

/// The player of `players` with identifier `id`, if there is one.
pub open spec fn find_by_id(players: Seq<PlayerResponse>, id: Seq<char>) -> Option<PlayerResponse> {
    if has_id(players, id) {
        Some(players[index_of_id(players, id)])
    } else {
        None
    }
}

/// The player of `players` with squad number `squad_number`, if there is one.
pub open spec fn find_by_squad_number(players: Seq<PlayerResponse>, squad_number: u32) -> Option<
    PlayerResponse,
> {
    if has_squad_number(players, squad_number) {
        Some(players[index_of_squad_number(players, squad_number)])
    } else {
        None
    }
}

/// `player` may join `players` without sharing a key with any of them.
pub open spec fn can_admit(players: Seq<PlayerResponse>, player: PlayerResponse) -> bool {
    !has_id(players, player.id@) && !has_squad_number(players, player.squad_number)
}

/// The list that loading `players` one by one gives, each player kept only
/// where it shares no key with those kept before it.
pub open spec fn admitted(players: Seq<PlayerResponse>) -> Seq<PlayerResponse>
    decreases players.len(),
{
    if players.len() == 0 {
        Seq::empty()
    } else {
        let kept = admitted(players.drop_last());
        if can_admit(kept, players.last()) {
            kept.push(players.last())
        } else {
            kept
        }
    }
}

/// Why the collection refused to store a player.
#[derive(Debug, Clone, Copy, PartialEq, Eq, Structural)]
pub enum StoreError {
    /// A stored player already has the new player's identifier.
    DuplicateId,
    /// A stored player already wears the new player's squad number.
    DuplicateSquadNumber,
}

/// What storing `player` in `players` answers: the identifier is checked
/// first, then the squad number.
pub open spec fn insert_outcome(players: Seq<PlayerResponse>, player: PlayerResponse) -> Result<
    (),
    StoreError,
> {
    if has_id(players, player.id@) {
        Err(StoreError::DuplicateId)
    } else if has_squad_number(players, player.squad_number) {
        Err(StoreError::DuplicateSquadNumber)
    } else {
        Ok(())
    }
}

/// Appending a player that shares no key with `players` keeps keys unique.
pub proof fn lemma_push_keeps_keys_unique(players: Seq<PlayerResponse>, player: PlayerResponse)
    requires
        keys_unique(players),
        can_admit(players, player),
    ensures
        keys_unique(players.push(player)),
{
    let pushed = players.push(player);
    assert forall|i: int, j: int|
        0 <= i < pushed.len() && 0 <= j < pushed.len() && i != j implies #[trigger] pushed[i].id@
        != #[trigger] pushed[j].id@ by {
        if i < players.len() && j < players.len() {
            assert(players[i].id@ != players[j].id@);
        } else if i < players.len() {
            if players[i].id@ == player.id@ {
                assert(has_id(players, player.id@));
            }
        } else {
            if players[j].id@ == player.id@ {
                assert(has_id(players, player.id@));
            }
        }
    }
    assert forall|i: int, j: int|
        0 <= i < pushed.len() && 0 <= j < pushed.len() && i != j
            implies #[trigger] pushed[i].squad_number != #[trigger] pushed[j].squad_number by {
        if i < players.len() && j < players.len() {
            assert(players[i].squad_number != players[j].squad_number);
        } else if i < players.len() {
            if players[i].squad_number == player.squad_number {
                assert(has_squad_number(players, player.squad_number));
            }
        } else {
            if players[j].squad_number == player.squad_number {
                assert(has_squad_number(players, player.squad_number));
            }
        }
    }
}

/// Replacing a player by one with the same identifier and squad number
/// keeps keys unique.
pub proof fn lemma_update_keeps_keys_unique(
    players: Seq<PlayerResponse>,
    index: int,
    player: PlayerResponse,
)
    requires
        keys_unique(players),
        0 <= index < players.len(),
        player.id@ == players[index].id@,
        player.squad_number == players[index].squad_number,
    ensures
        keys_unique(players.update(index, player)),
{
    let updated = players.update(index, player);
    assert forall|i: int, j: int|
        0 <= i < updated.len() && 0 <= j < updated.len() && i != j implies #[trigger] updated[i].id@
        != #[trigger] updated[j].id@ by {
        assert(players[i].id@ != players[j].id@);
    }
    assert forall|i: int, j: int|
        0 <= i < updated.len() && 0 <= j < updated.len() && i != j
            implies #[trigger] updated[i].squad_number != #[trigger] updated[j].squad_number by {
        assert(players[i].squad_number != players[j].squad_number);
    }
}

/// Removing a player keeps keys unique.
pub proof fn lemma_remove_keeps_keys_unique(players: Seq<PlayerResponse>, index: int)
    requires
        keys_unique(players),
        0 <= index < players.len(),
    ensures
        keys_unique(players.remove(index)),
{
    let removed = players.remove(index);
    assert forall|i: int, j: int|
        0 <= i < removed.len() && 0 <= j < removed.len() && i != j implies #[trigger] removed[i].id@
        != #[trigger] removed[j].id@ by {
        let oi = if i < index { i } else { i + 1 };
        let oj = if j < index { j } else { j + 1 };
        assert(removed[i] == players[oi]);
        assert(removed[j] == players[oj]);
        assert(players[oi].id@ != players[oj].id@);
    }
    assert forall|i: int, j: int|
        0 <= i < removed.len() && 0 <= j < removed.len() && i != j
            implies #[trigger] removed[i].squad_number != #[trigger] removed[j].squad_number by {
        let oi = if i < index { i } else { i + 1 };
        let oj = if j < index { j } else { j + 1 };
        assert(removed[i] == players[oi]);
        assert(removed[j] == players[oj]);
        assert(players[oi].squad_number != players[oj].squad_number);
    }
}

/// In a list with unique keys, looking up the squad number of the player at
/// `index` finds that player.
pub proof fn lemma_found_by_squad_number(players: Seq<PlayerResponse>, index: int)
    requires
        keys_unique(players),
        0 <= index < players.len(),
    ensures
        find_by_squad_number(players, players[index].squad_number) == Some(players[index]),
{
    let n = players[index].squad_number;
    assert(has_squad_number(players, n));
    let j = index_of_squad_number(players, n);
    if j != index {
        assert(players[j].squad_number != players[index].squad_number);
    }
}

/// In a list with unique keys, looking up the identifier of the player at
/// `index` finds that player.
pub proof fn lemma_found_by_id(players: Seq<PlayerResponse>, index: int)
    requires
        keys_unique(players),
        0 <= index < players.len(),
    ensures
        find_by_id(players, players[index].id@) == Some(players[index]),
{
    let id = players[index].id@;
    assert(has_id(players, id));
    let j = index_of_id(players, id);
    if j != index {
        assert(players[j].id@ != players[index].id@);
    }
}

/// Loading a list whose keys are already unique keeps every player, in order.
pub proof fn lemma_admitted_keeps_unique_list(players: Seq<PlayerResponse>)
    requires
        keys_unique(players),
    ensures
        admitted(players) == players,
    decreases players.len(),
{
    if players.len() > 0 {
        let rest = players.drop_last();
        assert(keys_unique(rest)) by {
            assert forall|i: int, j: int|
                0 <= i < rest.len() && 0 <= j < rest.len() && i != j implies #[trigger] rest[i].id@
                != #[trigger] rest[j].id@ by {
                assert(players[i].id@ != players[j].id@);
            }
            assert forall|i: int, j: int|
                0 <= i < rest.len() && 0 <= j < rest.len() && i != j
                    implies #[trigger] rest[i].squad_number != #[trigger] rest[j].squad_number by {
                assert(players[i].squad_number != players[j].squad_number);
            }
        }
        lemma_admitted_keeps_unique_list(rest);
        let last = players.last();
        let k = players.len() - 1;
        assert(!has_id(rest, last.id@)) by {
            if has_id(rest, last.id@) {
                let i = index_of_id(rest, last.id@);
                assert(players[i].id@ != players[k].id@);
            }
        }
        assert(!has_squad_number(rest, last.squad_number)) by {
            if has_squad_number(rest, last.squad_number) {
                let i = index_of_squad_number(rest, last.squad_number);
                assert(players[i].squad_number != players[k].squad_number);
            }
        }
        assert(rest.push(last) =~= players);
    }
}

/// Loading any list gives a list with unique keys.
pub proof fn lemma_admitted_keys_unique(players: Seq<PlayerResponse>)
    ensures
        keys_unique(admitted(players)),
    decreases players.len(),
{
    if players.len() > 0 {
        lemma_admitted_keys_unique(players.drop_last());
        let kept = admitted(players.drop_last());
        if can_admit(kept, players.last()) {
            lemma_push_keeps_keys_unique(kept, players.last());
        }
    }
}

/// The stored players, in the order in which they were added.
pub struct PlayerCollection {
    players: Vec<PlayerResponse>,
}

impl View for PlayerCollection {
    type V = Seq<PlayerResponse>;

    closed spec fn view(&self) -> Seq<PlayerResponse> {
        self.players@
    }
}

impl PlayerCollection {
    #[verifier::type_invariant]
    spec fn keys_are_unique(self) -> bool {
        keys_unique(self.players@)
    }

    /// An empty collection.
    pub fn new() -> (collection: Self)
        ensures
            collection@ == Seq::<PlayerResponse>::empty(),
            keys_unique(collection@),
    {
        PlayerCollection { players: Vec::new() }
    }

    /// The number of stored players.
    pub fn len(&self) -> (count: usize)
        ensures
            count == self@.len(),
            keys_unique(self@),
    {
        proof {
            use_type_invariant(self);
        }
        self.players.len()
    }

    /// The stored player at `index`.
    pub fn get(&self, index: usize) -> (player: &PlayerResponse)
        requires
            index < self@.len(),
        ensures
            *player == self@[index as int],
            keys_unique(self@),
    {
        proof {
            use_type_invariant(self);
        }
        &self.players[index]
    }

    /// A copy of every stored player, in order.
    pub fn to_vec(&self) -> (players: Vec<PlayerResponse>)
        ensures
            players@ == self@,
            keys_unique(self@),
    {
        proof {
            use_type_invariant(self);
        }
        let mut players: Vec<PlayerResponse> = Vec::new();
        let mut i: usize = 0;
        while i < self.players.len()
            invariant
                i <= self.players@.len(),
                players@ == self.players@.take(i as int),
            decreases self.players@.len() - i,
        {
            players.push(self.players[i].clone());
            i = i + 1;
            assert(players@ =~= self.players@.take(i as int));
        }
        assert(players@ =~= self.players@);
        players
    }

    /// Where the player with identifier `id` stands, if any does.
    pub fn position_of_id(&self, id: &String) -> (position: Option<usize>)
        ensures
            keys_unique(self@),
            match position {
                Some(i) => i < self@.len() && self@[i as int].id@ == id@ && i == index_of_id(
                    self@,
                    id@,
                ),
                None => !has_id(self@, id@),
            },
    {
        proof {
            use_type_invariant(self);
        }
        let mut i: usize = 0;
        while i < self.players.len()
            invariant
                i <= self.players@.len(),
                keys_unique(self.players@),
                forall|k: int| 0 <= k < i ==> #[trigger] self.players@[k].id@ != id@,
            decreases self.players@.len() - i,
        {
            if self.players[i].id == *id {
                proof {
                    let j = index_of_id(self@, id@);
                    assert(self@[i as int].id@ == id@);
                    assert(0 <= j < self@.len() && self@[j].id@ == id@);
                }
                return Some(i);
            }
            i = i + 1;
        }
        None
    }

    /// Where the player with squad number `squad_number` stands, if any does.
    pub fn position_of_squad_number(&self, squad_number: u32) -> (position: Option<usize>)
        ensures
            keys_unique(self@),
            match position {
                Some(i) => i < self@.len() && self@[i as int].squad_number == squad_number && i
                    == index_of_squad_number(self@, squad_number),
                None => !has_squad_number(self@, squad_number),
            },
    {
        proof {
            use_type_invariant(self);
        }
        let mut i: usize = 0;
        while i < self.players.len()
            invariant
                i <= self.players@.len(),
                keys_unique(self.players@),
                forall|k: int| 0 <= k < i ==> #[trigger] self.players@[k].squad_number != squad_number,
            decreases self.players@.len() - i,
        {
            if self.players[i].squad_number == squad_number {
                proof {
                    let j = index_of_squad_number(self@, squad_number);
                    assert(self@[i as int].squad_number == squad_number);
                    assert(0 <= j < self@.len() && self@[j].squad_number == squad_number);
                }
                return Some(i);
            }
            i = i + 1;
        }
        None
    }

    /// Stores `player` at the end, unless a stored player shares its
    /// identifier or its squad number; then nothing changes.
    pub fn insert(&mut self, player: PlayerResponse) -> (result: Result<(), StoreError>)
        ensures
            result == insert_outcome(old(self)@, player),
            result is Ok <==> can_admit(old(self)@, player),
            final(self)@ == (if result is Ok {
                old(self)@.push(player)
            } else {
                old(self)@
            }),
            keys_unique(final(self)@),
    {
        proof {
            use_type_invariant(&*self);
        }
        if self.position_of_id(&player.id).is_some() {
            return Err(StoreError::DuplicateId);
        }
        if self.position_of_squad_number(player.squad_number).is_some() {
            return Err(StoreError::DuplicateSquadNumber);
        }
        let mut players: Vec<PlayerResponse> = Vec::new();
        std::mem::swap(&mut players, &mut self.players);
        proof {
            lemma_push_keeps_keys_unique(players@, player);
        }
        players.push(player);
        self.players = players;
        Ok(())
    }

    /// Replaces the player at `index` by one with the same identifier and
    /// squad number.
    pub fn replace(&mut self, index: usize, player: PlayerResponse)
        requires
            index < old(self)@.len(),
            player.id@ == old(self)@[index as int].id@,
            player.squad_number == old(self)@[index as int].squad_number,
        ensures
            final(self)@ == old(self)@.update(index as int, player),
            keys_unique(final(self)@),
    {
        proof {
            use_type_invariant(&*self);
        }
        let mut players: Vec<PlayerResponse> = Vec::new();
        std::mem::swap(&mut players, &mut self.players);
        proof {
            lemma_update_keeps_keys_unique(players@, index as int, player);
        }
        players.set(index, player);
        self.players = players;
    }

    /// Takes the player at `index` out of the collection.
    pub fn remove(&mut self, index: usize) -> (player: PlayerResponse)
        requires
            index < old(self)@.len(),
        ensures
            player == old(self)@[index as int],
            final(self)@ == old(self)@.remove(index as int),
            keys_unique(final(self)@),
    {
        proof {
            use_type_invariant(&*self);
        }
        let mut players: Vec<PlayerResponse> = Vec::new();
        std::mem::swap(&mut players, &mut self.players);
        proof {
            lemma_remove_keeps_keys_unique(players@, index as int);
        }
        let player = players.remove(index);
        self.players = players;
        player
    }

    /// Loads `players` one by one; a player that shares a key with one
    /// loaded before it is left out.
    pub fn from_players(players: Vec<PlayerResponse>) -> (collection: Self)
        ensures
            collection@ == admitted(players@),
            keys_unique(collection@),
    {
        let mut collection = PlayerCollection::new();
        let mut i: usize = 0;
        while i < players.len()
            invariant
                i <= players@.len(),
                collection@ == admitted(players@.take(i as int)),
            decreases players@.len() - i,
        {
            let player = players[i].clone();
            let _ = collection.insert(player);
            proof {
                let prefix = players@.take(i + 1);
                assert(prefix.drop_last() =~= players@.take(i as int));
                assert(prefix.last() == players@[i as int]);
            }
            i = i + 1;
        }
        assert(players@.take(i as int) =~= players@);
        proof {
            use_type_invariant(&collection);
        }
        collection
    }
}

/// `players` holds the seed squad: record `i` has the fields of
/// `seed_fields(i)`, each seed identifier and each squad number 1 to 26 finds
/// its record, no other squad number finds one, and every stored identifier
/// is a seed identifier.
pub open spec fn is_seeded(players: Seq<PlayerResponse>) -> bool {
    &&& players.len() == 26
    &&& forall|i: int| 0 <= i < 26 ==> fields_of(#[trigger] players[i]) == seed_fields(i)
    &&& keys_unique(players)
    &&& seed_ids_found(players)
    &&& forall|n: u32|
        #[trigger] find_by_squad_number(players, n) == (if 1 <= n <= 26 {
            Some(players[n - 1])
        } else {
            None
        })
    &&& forall|id: Seq<char>|
        #[trigger] has_id(players, id) ==> {
            &&& exists|i: int| 0 <= i < 26 && #[trigger] seed_fields(i).id == id
            &&& seed_id_prefix(id)
        }
}

/// A list of 26 records with the seed's fields and unique keys holds the seed
/// squad.
proof fn lemma_seed_squad_is_seeded(s: Seq<PlayerResponse>)
    requires
        s.len() == 26,
        forall|i: int| 0 <= i < 26 ==> fields_of(#[trigger] s[i]) == seed_fields(i),
        keys_unique(s),
    ensures
        is_seeded(s),
{
    assert(seed_ids_found(s)) by {
        assert forall|i: int| 0 <= i < 26 implies find_by_id(s, #[trigger] seed_fields(i).id) == Some(
            s[i],
        ) by {
            assert(fields_of(s[i]) == seed_fields(i));
            lemma_found_by_id(s, i);
        }
        lemma_seed_ids_found_from_each(s);
    }
    assert forall|n: u32|
        #[trigger] find_by_squad_number(s, n) == (if 1 <= n <= 26 {
            Some(s[n - 1])
        } else {
            None
        }) by {
        if 1 <= n <= 26 {
            assert(fields_of(s[n - 1]) == seed_fields(n - 1));
            lemma_seed_squad_number(n - 1);
            lemma_found_by_squad_number(s, n - 1);
        } else if has_squad_number(s, n) {
            let k = index_of_squad_number(s, n);
            assert(fields_of(s[k]) == seed_fields(k));
            lemma_seed_squad_number(k);
        }
    }
    assert forall|id: Seq<char>| #[trigger] has_id(s, id) implies {
        &&& exists|i: int| 0 <= i < 26 && #[trigger] seed_fields(i).id == id
        &&& seed_id_prefix(id)
    } by {
        let k = index_of_id(s, id);
        assert(fields_of(s[k]) == seed_fields(k));
        lemma_seed_id_prefix(k);
    }
}

/// The collection that the service starts with: the seed squad, in order of
/// squad number.
pub fn initialize_database() -> (collection: PlayerCollection)
    ensures
        is_seeded(collection@),
{
    let squad = argentina_squad();
    proof {
        lemma_admitted_keeps_unique_list(squad@);
    }
    let collection = PlayerCollection::from_players(squad);
    proof {
        lemma_seed_squad_is_seeded(collection@);
    }
    collection
}

/// A fresh collection for one test: the same seed squad.
pub fn initialize_test_database() -> (collection: PlayerCollection)
    ensures
        is_seeded(collection@),
{
    initialize_database()
}

} // verus!
