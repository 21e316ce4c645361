//! The squad that a new collection is seeded with: Argentina's 26 players at
//! the 2022 World Cup, squad numbers 1 to 26.

use crate::models::player::{fields_of, PlayerFields, PlayerResponse};
use crate::state::player_collection::{find_by_id, keys_unique};
use vstd::prelude::*;
use vstd::string::StringExecFns;

verus! {

/// The fields of a seed record, written as literals.
pub open spec fn seed_row(
    id: &str,
    first_name: &str,
    middle_name: &str,
    last_name: &str,
    date_of_birth: &str,
    squad_number: u32,
    position: &str,
    abbr_position: &str,
    team: &str,
    league: &str,
    starting11: bool,
) -> PlayerFields {
    PlayerFields {
        id: id@,
        first_name: first_name@,
        middle_name: middle_name@,
        last_name: last_name@,
        date_of_birth: date_of_birth@,
        squad_number,
        position: position@,
        abbr_position: abbr_position@,
        team: team@,
        league: league@,
        starting11,
    }
}

/// The fields of the seed record at position `i` (squad number `i + 1`).
pub open spec fn seed_fields(i: int) -> PlayerFields {
    if i == 0 {
        seed_row(
            "8b7ad4e5-6c00-4cd4-a99b-0ed048bfdd24",
            "Franco",
            "Daniel",
            "Armani",
            "1986-10-16T00:00:00.000Z",
            1,
            "Goalkeeper",
            "GK",
            "River Plate",
            "Copa de la Liga",
            false,
        )
    } else if i == 1 {
        seed_row(
            "f679facd-1f1a-4417-8456-bc40e1daba1c",
            "Juan",
            "Marcos",
            "Foyth",
            "1998-01-12T00:00:00.000Z",
            2,
            "Right-Back",
            "RB",
            "Villarreal",
            "La Liga",
            false,
        )
    } else if i == 2 {
        seed_row(
            "c67eef65-d431-48ab-8a77-baf36b9abfe2",
            "Nicolás",
            "Alejandro",
            "Tagliafico",
            "1992-08-31T00:00:00.000Z",
            3,
            "Left-Back",
            "LB",
            "Olympique Lyon",
            "Ligue 1",
            true,
        )
    } else if i == 3 {
        seed_row(
            "f4adb995-b879-4512-83d6-54a98c0931c1",
            "Gonzalo",
            "Ariel",
            "Montiel",
            "1997-01-01T00:00:00.000Z",
            4,
            "Right-Back",
            "RB",
            "Sevilla FC",
            "La Liga",
            false,
        )
    } else if i == 4 {
        seed_row(
            "2aa713bd-4fad-40a9-be5e-d51cfe182b52",
            "Leandro",
            "Daniel",
            "Paredes",
            "1994-06-29T00:00:00.000Z",
            5,
            "Defensive Midfield",
            "DM",
            "Juventus",
            "Serie A",
            false,
        )
    } else if i == 5 {
        seed_row(
            "5722270d-d058-4470-8101-509ab724166e",
            "Germán",
            "Alejo",
            "Pezzella",
            "1991-06-27T00:00:00.000Z",
            6,
            "Centre-Back",
            "CB",
            "Real Betis Balompié",
            "La Liga",
            false,
        )
    } else if i == 6 {
        seed_row(
            "d8568d19-0318-46c1-9781-adb3d3aabdf4",
            "Rodrigo",
            "Javier",
            "de Paul",
            "1994-05-24T00:00:00.000Z",
            7,
            "Right Midfield",
            "RM",
            "Atlético Madrid",
            "La Liga",
            true,
        )
    } else if i == 7 {
        seed_row(
            "37f15f2f-b58d-4d22-b4e5-f6184b725be3",
            "Marcos",
            "Javier",
            "Acuña",
            "1991-10-28T00:00:00.000Z",
            8,
            "Left-Back",
            "LB",
            "Sevilla FC",
            "La Liga",
            false,
        )
    } else if i == 8 {
        seed_row(
            "e46c79e5-c662-40cd-b29c-5a6df097a57f",
            "Julián",
            "",
            "Álvarez",
            "2000-01-31T00:00:00.000Z",
            9,
            "Centre-Forward",
            "CF",
            "Manchester City",
            "Premier League",
            true,
        )
    } else if i == 9 {
        seed_row(
            "f10f398d-b2ff-40aa-acac-51f58d129bc7",
            "Lionel",
            "Andrés",
            "Messi",
            "1987-06-24T00:00:00.000Z",
            10,
            "Right Winger",
            "RW",
            "Paris Saint-Germain",
            "Ligue 1",
            true,
        )
    } else if i == 10 {
        seed_row(
            "df4221da-ec03-4e0e-b26c-bc3142cc1baf",
            "Ángel",
            "Fabián",
            "Di María",
            "1988-02-14T00:00:00.000Z",
            11,
            "Right Winger",
            "RW",
            "Juventus",
            "Serie A",
            true,
        )
    } else if i == 11 {
        seed_row(
            "2f68110b-2ff8-4366-b733-c1ebd902b4d0",
            "Gerónimo",
            "",
            "Rulli",
            "1992-05-20T00:00:00.000Z",
            12,
            "Goalkeeper",
            "GK",
            "Villarreal",
            "La Liga",
            false,
        )
    } else if i == 12 {
        seed_row(
            "52e88f0d-7397-40a3-8afa-b0b5f432036c",
            "Cristian",
            "Gabriel",
            "Romero",
            "1998-04-27T00:00:00.000Z",
            13,
            "Centre-Back",
            "CB",
            "Tottenham Hotspur",
            "Premier League",
            true,
        )
    } else if i == 13 {
        seed_row(
            "fd82d8d7-105c-4dc7-b88d-6f591143036b",
            "Exequiel",
            "Alejandro",
            "Palacios",
            "1998-10-05T00:00:00.000Z",
            14,
            "Central Midfield",
            "CM",
            "Bayer 04 Leverkusen",
            "Bundesliga",
            false,
        )
    } else if i == 14 {
        seed_row(
            "b01c65d5-37c4-425d-bfb9-709ae3174f03",
            "Ángel",
            "Martín",
            "Correa",
            "1995-03-09T00:00:00.000Z",
            15,
            "Right Winger",
            "RW",
            "Atlético Madrid",
            "La Liga",
            false,
        )
    } else if i == 15 {
        seed_row(
            "92dc75dd-f8aa-43af-9b20-dc516bbe4c71",
            "Thiago",
            "Ezequiel",
            "Almada",
            "2001-04-26T00:00:00.000Z",
            16,
            "Attacking Midfield",
            "AM",
            "Atlanta United FC",
            "Major League Soccer",
            false,
        )
    } else if i == 16 {
        seed_row(
            "082e6de9-dcd5-4d48-bb0b-b11f54f54b98",
            "Alejandro",
            "Darío",
            "Gómez",
            "1988-02-15T00:00:00.000Z",
            17,
            "Left Winger",
            "LW",
            "AC Monza",
            "Serie A",
            false,
        )
    } else if i == 17 {
        seed_row(
            "cad1b326-301a-4854-a44d-e239ca6f4a37",
            "Guido",
            "",
            "Rodríguez",
            "1994-04-12T00:00:00.000Z",
            18,
            "Defensive Midfield",
            "DM",
            "Real Betis Balompié",
            "La Liga",
            false,
        )
    } else if i == 18 {
        seed_row(
            "0f01b5d1-89c4-4a2e-9f13-98b53dc8e5a4",
            "Nicolás",
            "Hernán",
            "Otamendi",
            "1988-02-12T00:00:00.000Z",
            19,
            "Centre-Back",
            "CB",
            "SL Benfica",
            "Liga Portugal",
            true,
        )
    } else if i == 19 {
        seed_row(
            "ed4b6fc6-146e-410e-99dc-68fa2dfa512c",
            "Alexis",
            "",
            "Mac Allister",
            "1998-12-24T00:00:00.000Z",
            20,
            "Central Midfield",
            "CM",
            "Brighton & Hove Albion",
            "Premier League",
            true,
        )
    } else if i == 20 {
        seed_row(
            "5a657c88-a8e0-4560-9db1-28a2649fdfc6",
            "Paulo",
            "Exequiel",
            "Dybala",
            "1993-11-15T00:00:00.000Z",
            21,
            "Second Striker",
            "SS",
            "AS Roma",
            "Serie A",
            false,
        )
    } else if i == 21 {
        seed_row(
            "02181217-df92-4844-9b10-80f3b72b9a9e",
            "Lautaro",
            "Javier",
            "Martínez",
            "1997-08-22T00:00:00.000Z",
            22,
            "Centre-Forward",
            "CF",
            "Inter Milan",
            "Serie A",
            false,
        )
    } else if i == 22 {
        seed_row(
            "ba62f491-e444-4731-b851-01a33c41d5bf",
            "Damián",
            "Emiliano",
            "Martínez",
            "1992-09-02T00:00:00.000Z",
            23,
            "Goalkeeper",
            "GK",
            "Aston Villa FC",
            "Premier League",
            true,
        )
    } else if i == 23 {
        seed_row(
            "fd9db534-acee-4cf5-8769-7065cbe95541",
            "Enzo",
            "Jeremías",
            "Fernández",
            "2001-01-17T00:00:00.000Z",
            24,
            "Central Midfield",
            "CM",
            "SL Benfica",
            "Liga Portugal",
            true,
        )
    } else if i == 24 {
        seed_row(
            "508948f8-938a-4427-a778-56c37aa87fb4",
            "Lisandro",
            "",
            "Martínez",
            "1998-01-18T00:00:00.000Z",
            25,
            "Centre-Back",
            "CB",
            "Manchester United",
            "Premier League",
            false,
        )
    } else if i == 25 {
        seed_row(
            "108b3fc3-7423-43e2-82ed-cf5ca8591c2a",
            "Nahuel",
            "",
            "Molina",
            "1998-04-06T00:00:00.000Z",
            26,
            "Right-Back",
            "RB",
            "Atlético Madrid",
            "La Liga",
            true,
        )
    } else {
        seed_row("", "", "", "", "", 0, "", "", "", "", false)
    }
}

/// `id` begins with the first three characters of a seed identifier; no two
/// seed identifiers share them.
pub open spec fn seed_id_prefix(id: Seq<char>) -> bool {
    ||| (id[0] == '8' && id[1] == 'b' && id[2] == '7')
    ||| (id[0] == 'f' && id[1] == '6' && id[2] == '7')
    ||| (id[0] == 'c' && id[1] == '6' && id[2] == '7')
    ||| (id[0] == 'f' && id[1] == '4' && id[2] == 'a')
    ||| (id[0] == '2' && id[1] == 'a' && id[2] == 'a')
    ||| (id[0] == '5' && id[1] == '7' && id[2] == '2')
    ||| (id[0] == 'd' && id[1] == '8' && id[2] == '5')
    ||| (id[0] == '3' && id[1] == '7' && id[2] == 'f')
    ||| (id[0] == 'e' && id[1] == '4' && id[2] == '6')
    ||| (id[0] == 'f' && id[1] == '1' && id[2] == '0')
    ||| (id[0] == 'd' && id[1] == 'f' && id[2] == '4')
    ||| (id[0] == '2' && id[1] == 'f' && id[2] == '6')
    ||| (id[0] == '5' && id[1] == '2' && id[2] == 'e')
    ||| (id[0] == 'f' && id[1] == 'd' && id[2] == '8')
    ||| (id[0] == 'b' && id[1] == '0' && id[2] == '1')
    ||| (id[0] == '9' && id[1] == '2' && id[2] == 'd')
    ||| (id[0] == '0' && id[1] == '8' && id[2] == '2')
    ||| (id[0] == 'c' && id[1] == 'a' && id[2] == 'd')
    ||| (id[0] == '0' && id[1] == 'f' && id[2] == '0')
    ||| (id[0] == 'e' && id[1] == 'd' && id[2] == '4')
    ||| (id[0] == '5' && id[1] == 'a' && id[2] == '6')
    ||| (id[0] == '0' && id[1] == '2' && id[2] == '1')
    ||| (id[0] == 'b' && id[1] == 'a' && id[2] == '6')
    ||| (id[0] == 'f' && id[1] == 'd' && id[2] == '9')
    ||| (id[0] == '5' && id[1] == '0' && id[2] == '8')
    ||| (id[0] == '1' && id[1] == '0' && id[2] == '8')
}

/// Each seed identifier finds, in `players`, the record at its position.
pub open spec fn seed_ids_found(players: Seq<PlayerResponse>) -> bool {
    &&& find_by_id(players, seed_fields(0).id) == Some(players[0])
    &&& find_by_id(players, seed_fields(1).id) == Some(players[1])
    &&& find_by_id(players, seed_fields(2).id) == Some(players[2])
    &&& find_by_id(players, seed_fields(3).id) == Some(players[3])
    &&& find_by_id(players, seed_fields(4).id) == Some(players[4])
    &&& find_by_id(players, seed_fields(5).id) == Some(players[5])
    &&& find_by_id(players, seed_fields(6).id) == Some(players[6])
    &&& find_by_id(players, seed_fields(7).id) == Some(players[7])
    &&& find_by_id(players, seed_fields(8).id) == Some(players[8])
    &&& find_by_id(players, seed_fields(9).id) == Some(players[9])
    &&& find_by_id(players, seed_fields(10).id) == Some(players[10])
    &&& find_by_id(players, seed_fields(11).id) == Some(players[11])
    &&& find_by_id(players, seed_fields(12).id) == Some(players[12])
    &&& find_by_id(players, seed_fields(13).id) == Some(players[13])
    &&& find_by_id(players, seed_fields(14).id) == Some(players[14])
    &&& find_by_id(players, seed_fields(15).id) == Some(players[15])
    &&& find_by_id(players, seed_fields(16).id) == Some(players[16])
    &&& find_by_id(players, seed_fields(17).id) == Some(players[17])
    &&& find_by_id(players, seed_fields(18).id) == Some(players[18])
    &&& find_by_id(players, seed_fields(19).id) == Some(players[19])
    &&& find_by_id(players, seed_fields(20).id) == Some(players[20])
    &&& find_by_id(players, seed_fields(21).id) == Some(players[21])
    &&& find_by_id(players, seed_fields(22).id) == Some(players[22])
    &&& find_by_id(players, seed_fields(23).id) == Some(players[23])
    &&& find_by_id(players, seed_fields(24).id) == Some(players[24])
    &&& find_by_id(players, seed_fields(25).id) == Some(players[25])
}

/// The seed record at position `i` wears squad number `i + 1`.
pub proof fn lemma_seed_squad_number(i: int)
    requires
        0 <= i < 26,
    ensures
        seed_fields(i).squad_number == i + 1,
{
}

/// `seed_ids_found` holds where each seed identifier finds its record.
pub proof fn lemma_seed_ids_found_from_each(players: Seq<PlayerResponse>)
    requires
        forall|i: int|
            0 <= i < 26 ==> find_by_id(players, #[trigger] seed_fields(i).id) == Some(players[i]),
    ensures
        seed_ids_found(players),
{
    assert(find_by_id(players, seed_fields(0).id) == Some(players[0]));
    assert(find_by_id(players, seed_fields(1).id) == Some(players[1]));
    assert(find_by_id(players, seed_fields(2).id) == Some(players[2]));
    assert(find_by_id(players, seed_fields(3).id) == Some(players[3]));
    assert(find_by_id(players, seed_fields(4).id) == Some(players[4]));
    assert(find_by_id(players, seed_fields(5).id) == Some(players[5]));
    assert(find_by_id(players, seed_fields(6).id) == Some(players[6]));
    assert(find_by_id(players, seed_fields(7).id) == Some(players[7]));
    assert(find_by_id(players, seed_fields(8).id) == Some(players[8]));
    assert(find_by_id(players, seed_fields(9).id) == Some(players[9]));
    assert(find_by_id(players, seed_fields(10).id) == Some(players[10]));
    assert(find_by_id(players, seed_fields(11).id) == Some(players[11]));
    assert(find_by_id(players, seed_fields(12).id) == Some(players[12]));
    assert(find_by_id(players, seed_fields(13).id) == Some(players[13]));
    assert(find_by_id(players, seed_fields(14).id) == Some(players[14]));
    assert(find_by_id(players, seed_fields(15).id) == Some(players[15]));
    assert(find_by_id(players, seed_fields(16).id) == Some(players[16]));
    assert(find_by_id(players, seed_fields(17).id) == Some(players[17]));
    assert(find_by_id(players, seed_fields(18).id) == Some(players[18]));
    assert(find_by_id(players, seed_fields(19).id) == Some(players[19]));
    assert(find_by_id(players, seed_fields(20).id) == Some(players[20]));
    assert(find_by_id(players, seed_fields(21).id) == Some(players[21]));
    assert(find_by_id(players, seed_fields(22).id) == Some(players[22]));
    assert(find_by_id(players, seed_fields(23).id) == Some(players[23]));
    assert(find_by_id(players, seed_fields(24).id) == Some(players[24]));
    assert(find_by_id(players, seed_fields(25).id) == Some(players[25]));
}

/// Every seed identifier is 36 characters long and begins as
/// `seed_id_prefix` says.
pub proof fn lemma_seed_id_prefix(i: int)
    requires
        0 <= i < 26,
    ensures
        seed_fields(i).id.len() == 36,
        seed_id_prefix(seed_fields(i).id),
{
    reveal_strlit("8b7ad4e5-6c00-4cd4-a99b-0ed048bfdd24");
    reveal_strlit("f679facd-1f1a-4417-8456-bc40e1daba1c");
    reveal_strlit("c67eef65-d431-48ab-8a77-baf36b9abfe2");
    reveal_strlit("f4adb995-b879-4512-83d6-54a98c0931c1");
    reveal_strlit("2aa713bd-4fad-40a9-be5e-d51cfe182b52");
    reveal_strlit("5722270d-d058-4470-8101-509ab724166e");
    reveal_strlit("d8568d19-0318-46c1-9781-adb3d3aabdf4");
    reveal_strlit("37f15f2f-b58d-4d22-b4e5-f6184b725be3");
    reveal_strlit("e46c79e5-c662-40cd-b29c-5a6df097a57f");
    reveal_strlit("f10f398d-b2ff-40aa-acac-51f58d129bc7");
    reveal_strlit("df4221da-ec03-4e0e-b26c-bc3142cc1baf");
    reveal_strlit("2f68110b-2ff8-4366-b733-c1ebd902b4d0");
    reveal_strlit("52e88f0d-7397-40a3-8afa-b0b5f432036c");
    reveal_strlit("fd82d8d7-105c-4dc7-b88d-6f591143036b");
    reveal_strlit("b01c65d5-37c4-425d-bfb9-709ae3174f03");
    reveal_strlit("92dc75dd-f8aa-43af-9b20-dc516bbe4c71");
    reveal_strlit("082e6de9-dcd5-4d48-bb0b-b11f54f54b98");
    reveal_strlit("cad1b326-301a-4854-a44d-e239ca6f4a37");
    reveal_strlit("0f01b5d1-89c4-4a2e-9f13-98b53dc8e5a4");
    reveal_strlit("ed4b6fc6-146e-410e-99dc-68fa2dfa512c");
    reveal_strlit("5a657c88-a8e0-4560-9db1-28a2649fdfc6");
    reveal_strlit("02181217-df92-4844-9b10-80f3b72b9a9e");
    reveal_strlit("ba62f491-e444-4731-b851-01a33c41d5bf");
    reveal_strlit("fd9db534-acee-4cf5-8769-7065cbe95541");
    reveal_strlit("508948f8-938a-4427-a778-56c37aa87fb4");
    reveal_strlit("108b3fc3-7423-43e2-82ed-cf5ca8591c2a");
}

/// A seed record built from literals.
fn seed_player(
    id: &str,
    first_name: &str,
    middle_name: &str,
    last_name: &str,
    date_of_birth: &str,
    squad_number: u32,
    position: &str,
    abbr_position: &str,
    team: &str,
    league: &str,
    starting11: bool,
) -> (player: PlayerResponse)
    ensures
        fields_of(player) == seed_row(
            id,
            first_name,
            middle_name,
            last_name,
            date_of_birth,
            squad_number,
            position,
            abbr_position,
            team,
            league,
            starting11,
        ),
{
    PlayerResponse {
        id: String::from_str(id),
        first_name: String::from_str(first_name),
        middle_name: String::from_str(middle_name),
        last_name: String::from_str(last_name),
        date_of_birth: String::from_str(date_of_birth),
        squad_number,
        position: String::from_str(position),
        abbr_position: String::from_str(abbr_position),
        team: String::from_str(team),
        league: String::from_str(league),
        starting11,
    }
}

/// Argentina's 2022 World Cup squad, ordered by squad number.
pub fn argentina_squad() -> (squad: Vec<PlayerResponse>)
    ensures
        squad@.len() == 26,
        forall|i: int| 0 <= i < 26 ==> fields_of(#[trigger] squad@[i]) == seed_fields(i),
        forall|i: int| 0 <= i < 26 ==> #[trigger] squad@[i].squad_number == i + 1,
        keys_unique(squad@),
{
    let mut squad: Vec<PlayerResponse> = Vec::new();
    squad.push(seed_player(
        "8b7ad4e5-6c00-4cd4-a99b-0ed048bfdd24",
        "Franco",
        "Daniel",
        "Armani",
        "1986-10-16T00:00:00.000Z",
        1,
        "Goalkeeper",
        "GK",
        "River Plate",
        "Copa de la Liga",
        false,
    ));
    squad.push(seed_player(
        "f679facd-1f1a-4417-8456-bc40e1daba1c",
        "Juan",
        "Marcos",
        "Foyth",
        "1998-01-12T00:00:00.000Z",
        2,
        "Right-Back",
        "RB",
        "Villarreal",
        "La Liga",
        false,
    ));
    squad.push(seed_player(
        "c67eef65-d431-48ab-8a77-baf36b9abfe2",
        "Nicolás",
        "Alejandro",
        "Tagliafico",
        "1992-08-31T00:00:00.000Z",
        3,
        "Left-Back",
        "LB",
        "Olympique Lyon",
        "Ligue 1",
        true,
    ));
    squad.push(seed_player(
        "f4adb995-b879-4512-83d6-54a98c0931c1",
        "Gonzalo",
        "Ariel",
        "Montiel",
        "1997-01-01T00:00:00.000Z",
        4,
        "Right-Back",
        "RB",
        "Sevilla FC",
        "La Liga",
        false,
    ));
    squad.push(seed_player(
        "2aa713bd-4fad-40a9-be5e-d51cfe182b52",
        "Leandro",
        "Daniel",
        "Paredes",
        "1994-06-29T00:00:00.000Z",
        5,
        "Defensive Midfield",
        "DM",
        "Juventus",
        "Serie A",
        false,
    ));
    squad.push(seed_player(
        "5722270d-d058-4470-8101-509ab724166e",
        "Germán",
        "Alejo",
        "Pezzella",
        "1991-06-27T00:00:00.000Z",
        6,
        "Centre-Back",
        "CB",
        "Real Betis Balompié",
        "La Liga",
        false,
    ));
    squad.push(seed_player(
        "d8568d19-0318-46c1-9781-adb3d3aabdf4",
        "Rodrigo",
        "Javier",
        "de Paul",
        "1994-05-24T00:00:00.000Z",
        7,
        "Right Midfield",
        "RM",
        "Atlético Madrid",
        "La Liga",
        true,
    ));
    squad.push(seed_player(
        "37f15f2f-b58d-4d22-b4e5-f6184b725be3",
        "Marcos",
        "Javier",
        "Acuña",
        "1991-10-28T00:00:00.000Z",
        8,
        "Left-Back",
        "LB",
        "Sevilla FC",
        "La Liga",
        false,
    ));
    squad.push(seed_player(
        "e46c79e5-c662-40cd-b29c-5a6df097a57f",
        "Julián",
        "",
        "Álvarez",
        "2000-01-31T00:00:00.000Z",
        9,
        "Centre-Forward",
        "CF",
        "Manchester City",
        "Premier League",
        true,
    ));
    squad.push(seed_player(
        "f10f398d-b2ff-40aa-acac-51f58d129bc7",
        "Lionel",
        "Andrés",
        "Messi",
        "1987-06-24T00:00:00.000Z",
        10,
        "Right Winger",
        "RW",
        "Paris Saint-Germain",
        "Ligue 1",
        true,
    ));
    squad.push(seed_player(
        "df4221da-ec03-4e0e-b26c-bc3142cc1baf",
        "Ángel",
        "Fabián",
        "Di María",
        "1988-02-14T00:00:00.000Z",
        11,
        "Right Winger",
        "RW",
        "Juventus",
        "Serie A",
        true,
    ));
    squad.push(seed_player(
        "2f68110b-2ff8-4366-b733-c1ebd902b4d0",
        "Gerónimo",
        "",
        "Rulli",
        "1992-05-20T00:00:00.000Z",
        12,
        "Goalkeeper",
        "GK",
        "Villarreal",
        "La Liga",
        false,
    ));
    squad.push(seed_player(
        "52e88f0d-7397-40a3-8afa-b0b5f432036c",
        "Cristian",
        "Gabriel",
        "Romero",
        "1998-04-27T00:00:00.000Z",
        13,
        "Centre-Back",
        "CB",
        "Tottenham Hotspur",
        "Premier League",
        true,
    ));
    squad.push(seed_player(
        "fd82d8d7-105c-4dc7-b88d-6f591143036b",
        "Exequiel",
        "Alejandro",
        "Palacios",
        "1998-10-05T00:00:00.000Z",
        14,
        "Central Midfield",
        "CM",
        "Bayer 04 Leverkusen",
        "Bundesliga",
        false,
    ));
    squad.push(seed_player(
        "b01c65d5-37c4-425d-bfb9-709ae3174f03",
        "Ángel",
        "Martín",
        "Correa",
        "1995-03-09T00:00:00.000Z",
        15,
        "Right Winger",
        "RW",
        "Atlético Madrid",
        "La Liga",
        false,
    ));
    squad.push(seed_player(
        "92dc75dd-f8aa-43af-9b20-dc516bbe4c71",
        "Thiago",
        "Ezequiel",
        "Almada",
        "2001-04-26T00:00:00.000Z",
        16,
        "Attacking Midfield",
        "AM",
        "Atlanta United FC",
        "Major League Soccer",
        false,
    ));
    squad.push(seed_player(
        "082e6de9-dcd5-4d48-bb0b-b11f54f54b98",
        "Alejandro",
        "Darío",
        "Gómez",
        "1988-02-15T00:00:00.000Z",
        17,
        "Left Winger",
        "LW",
        "AC Monza",
        "Serie A",
        false,
    ));
    squad.push(seed_player(
        "cad1b326-301a-4854-a44d-e239ca6f4a37",
        "Guido",
        "",
        "Rodríguez",
        "1994-04-12T00:00:00.000Z",
        18,
        "Defensive Midfield",
        "DM",
        "Real Betis Balompié",
        "La Liga",
        false,
    ));
    squad.push(seed_player(
        "0f01b5d1-89c4-4a2e-9f13-98b53dc8e5a4",
        "Nicolás",
        "Hernán",
        "Otamendi",
        "1988-02-12T00:00:00.000Z",
        19,
        "Centre-Back",
        "CB",
        "SL Benfica",
        "Liga Portugal",
        true,
    ));
    squad.push(seed_player(
        "ed4b6fc6-146e-410e-99dc-68fa2dfa512c",
        "Alexis",
        "",
        "Mac Allister",
        "1998-12-24T00:00:00.000Z",
        20,
        "Central Midfield",
        "CM",
        "Brighton & Hove Albion",
        "Premier League",
        true,
    ));
    squad.push(seed_player(
        "5a657c88-a8e0-4560-9db1-28a2649fdfc6",
        "Paulo",
        "Exequiel",
        "Dybala",
        "1993-11-15T00:00:00.000Z",
        21,
        "Second Striker",
        "SS",
        "AS Roma",
        "Serie A",
        false,
    ));
    squad.push(seed_player(
        "02181217-df92-4844-9b10-80f3b72b9a9e",
        "Lautaro",
        "Javier",
        "Martínez",
        "1997-08-22T00:00:00.000Z",
        22,
        "Centre-Forward",
        "CF",
        "Inter Milan",
        "Serie A",
        false,
    ));
    squad.push(seed_player(
        "ba62f491-e444-4731-b851-01a33c41d5bf",
        "Damián",
        "Emiliano",
        "Martínez",
        "1992-09-02T00:00:00.000Z",
        23,
        "Goalkeeper",
        "GK",
        "Aston Villa FC",
        "Premier League",
        true,
    ));
    squad.push(seed_player(
        "fd9db534-acee-4cf5-8769-7065cbe95541",
        "Enzo",
        "Jeremías",
        "Fernández",
        "2001-01-17T00:00:00.000Z",
        24,
        "Central Midfield",
        "CM",
        "SL Benfica",
        "Liga Portugal",
        true,
    ));
    squad.push(seed_player(
        "508948f8-938a-4427-a778-56c37aa87fb4",
        "Lisandro",
        "",
        "Martínez",
        "1998-01-18T00:00:00.000Z",
        25,
        "Centre-Back",
        "CB",
        "Manchester United",
        "Premier League",
        false,
    ));
    squad.push(seed_player(
        "108b3fc3-7423-43e2-82ed-cf5ca8591c2a",
        "Nahuel",
        "",
        "Molina",
        "1998-04-06T00:00:00.000Z",
        26,
        "Right-Back",
        "RB",
        "Atlético Madrid",
        "La Liga",
        true,
    ));
    proof {
        reveal_strlit("8b7ad4e5-6c00-4cd4-a99b-0ed048bfdd24");
        reveal_strlit("f679facd-1f1a-4417-8456-bc40e1daba1c");
        reveal_strlit("c67eef65-d431-48ab-8a77-baf36b9abfe2");
        reveal_strlit("f4adb995-b879-4512-83d6-54a98c0931c1");
        reveal_strlit("2aa713bd-4fad-40a9-be5e-d51cfe182b52");
        reveal_strlit("5722270d-d058-4470-8101-509ab724166e");
        reveal_strlit("d8568d19-0318-46c1-9781-adb3d3aabdf4");
        reveal_strlit("37f15f2f-b58d-4d22-b4e5-f6184b725be3");
        reveal_strlit("e46c79e5-c662-40cd-b29c-5a6df097a57f");
        reveal_strlit("f10f398d-b2ff-40aa-acac-51f58d129bc7");
        reveal_strlit("df4221da-ec03-4e0e-b26c-bc3142cc1baf");
        reveal_strlit("2f68110b-2ff8-4366-b733-c1ebd902b4d0");
        reveal_strlit("52e88f0d-7397-40a3-8afa-b0b5f432036c");
        reveal_strlit("fd82d8d7-105c-4dc7-b88d-6f591143036b");
        reveal_strlit("b01c65d5-37c4-425d-bfb9-709ae3174f03");
        reveal_strlit("92dc75dd-f8aa-43af-9b20-dc516bbe4c71");
        reveal_strlit("082e6de9-dcd5-4d48-bb0b-b11f54f54b98");
        reveal_strlit("cad1b326-301a-4854-a44d-e239ca6f4a37");
        reveal_strlit("0f01b5d1-89c4-4a2e-9f13-98b53dc8e5a4");
        reveal_strlit("ed4b6fc6-146e-410e-99dc-68fa2dfa512c");
        reveal_strlit("5a657c88-a8e0-4560-9db1-28a2649fdfc6");
        reveal_strlit("02181217-df92-4844-9b10-80f3b72b9a9e");
        reveal_strlit("ba62f491-e444-4731-b851-01a33c41d5bf");
        reveal_strlit("fd9db534-acee-4cf5-8769-7065cbe95541");
        reveal_strlit("508948f8-938a-4427-a778-56c37aa87fb4");
        reveal_strlit("108b3fc3-7423-43e2-82ed-cf5ca8591c2a");
        assert(squad@[0].id@[0] == '8' && squad@[0].id@[1] == 'b' && squad@[0].id@[2] == '7');
        assert(squad@[1].id@[0] == 'f' && squad@[1].id@[1] == '6' && squad@[1].id@[2] == '7');
        assert(squad@[2].id@[0] == 'c' && squad@[2].id@[1] == '6' && squad@[2].id@[2] == '7');
        assert(squad@[3].id@[0] == 'f' && squad@[3].id@[1] == '4' && squad@[3].id@[2] == 'a');
        assert(squad@[4].id@[0] == '2' && squad@[4].id@[1] == 'a' && squad@[4].id@[2] == 'a');
        assert(squad@[5].id@[0] == '5' && squad@[5].id@[1] == '7' && squad@[5].id@[2] == '2');
        assert(squad@[6].id@[0] == 'd' && squad@[6].id@[1] == '8' && squad@[6].id@[2] == '5');
        assert(squad@[7].id@[0] == '3' && squad@[7].id@[1] == '7' && squad@[7].id@[2] == 'f');
        assert(squad@[8].id@[0] == 'e' && squad@[8].id@[1] == '4' && squad@[8].id@[2] == '6');
        assert(squad@[9].id@[0] == 'f' && squad@[9].id@[1] == '1' && squad@[9].id@[2] == '0');
        assert(squad@[10].id@[0] == 'd' && squad@[10].id@[1] == 'f' && squad@[10].id@[2] == '4');
        assert(squad@[11].id@[0] == '2' && squad@[11].id@[1] == 'f' && squad@[11].id@[2] == '6');
        assert(squad@[12].id@[0] == '5' && squad@[12].id@[1] == '2' && squad@[12].id@[2] == 'e');
        assert(squad@[13].id@[0] == 'f' && squad@[13].id@[1] == 'd' && squad@[13].id@[2] == '8');
        assert(squad@[14].id@[0] == 'b' && squad@[14].id@[1] == '0' && squad@[14].id@[2] == '1');
        assert(squad@[15].id@[0] == '9' && squad@[15].id@[1] == '2' && squad@[15].id@[2] == 'd');
        assert(squad@[16].id@[0] == '0' && squad@[16].id@[1] == '8' && squad@[16].id@[2] == '2');
        assert(squad@[17].id@[0] == 'c' && squad@[17].id@[1] == 'a' && squad@[17].id@[2] == 'd');
        assert(squad@[18].id@[0] == '0' && squad@[18].id@[1] == 'f' && squad@[18].id@[2] == '0');
        assert(squad@[19].id@[0] == 'e' && squad@[19].id@[1] == 'd' && squad@[19].id@[2] == '4');
        assert(squad@[20].id@[0] == '5' && squad@[20].id@[1] == 'a' && squad@[20].id@[2] == '6');
        assert(squad@[21].id@[0] == '0' && squad@[21].id@[1] == '2' && squad@[21].id@[2] == '1');
        assert(squad@[22].id@[0] == 'b' && squad@[22].id@[1] == 'a' && squad@[22].id@[2] == '6');
        assert(squad@[23].id@[0] == 'f' && squad@[23].id@[1] == 'd' && squad@[23].id@[2] == '9');
        assert(squad@[24].id@[0] == '5' && squad@[24].id@[1] == '0' && squad@[24].id@[2] == '8');
        assert(squad@[25].id@[0] == '1' && squad@[25].id@[1] == '0' && squad@[25].id@[2] == '8');
        assert forall|i: int, j: int|
            0 <= i < squad@.len() && 0 <= j < squad@.len() && i != j implies #[trigger] squad@[i].id@
            != #[trigger] squad@[j].id@ by {
            if squad@[i].id@ == squad@[j].id@ {
                assert(squad@[i].id@[0] == squad@[j].id@[0]);
                assert(squad@[i].id@[1] == squad@[j].id@[1]);
                assert(squad@[i].id@[2] == squad@[j].id@[2]);
            }
        }
        assert(keys_unique(squad@));
    }
    squad
}

} // verus!
