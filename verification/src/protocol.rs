//! The wire protocol applied to the engine: a closed, tagged request type
//! with required fields validated at decode time, and the single verified
//! step that a session server runs per request while it holds exclusive
//! access to the shared game.

use vstd::prelude::*;
use vstd::string::StringExecFns;

use crate::card::{spec_cycled_down, spec_cycled_up, Card, CardValue};
use crate::game::{
    dir_after_play, lemma_hand_le_total, lemma_hands_total_update, next_idx, penalty_of,
    turn_after_play, Game,
};
use crate::json::{get_int_field, get_str_field, json_int_field, json_str_field};
use crate::player::Player;

verus! {

/// One decoded client request. Field validation happens at decode time:
/// a request missing a required field, or carrying a negative or oversized
/// count or index, never reaches the engine.
pub enum Request {
    Join { name: String },
    GetPlayers,
    ResetPlus,
    TakeCards { name: String, num: usize },
    UseCard { name: String, card_index: usize },
    GetCards { name: String },
    GetPlus,
    GetCardNum { name: String },
    CurrentTurn,
    TopCard,
    CycleColorUp { name: String, card_index: usize },
    CycleColorDown { name: String, card_index: usize },
}

/// What `get_players` exposes of a seated player: the name and the hand
/// size, never the hand itself.
pub struct PlayerInfo {
    pub name: String,
    pub card_count: usize,
}

/// One response to a client. `Empty` and `Rejected` both put no bytes on
/// the wire; the distinction records whether the request took effect.
pub enum Response {
    Empty,
    Rejected,
    Status(u8),
    Byte(u8),
    Text(String),
    TopCard(Card),
    Cards(Vec<Card>),
    Players(Vec<PlayerInfo>),
}

/// A request's shape at the specification level: names as character
/// sequences, counts and indices as plain integers.
pub enum RequestForm {
    Join { name: Seq<char> },
    GetPlayers,
    ResetPlus,
    TakeCards { name: Seq<char>, num: int },
    UseCard { name: Seq<char>, card_index: int },
    GetCards { name: Seq<char> },
    GetPlus,
    GetCardNum { name: Seq<char> },
    CurrentTurn,
    TopCard,
    CycleColorUp { name: Seq<char>, card_index: int },
    CycleColorDown { name: Seq<char>, card_index: int },
}

/// The shape a decoded request denotes.
pub open spec fn request_form(r: Request) -> RequestForm {
    match r {
        Request::Join { name } => RequestForm::Join { name: name@ },
        Request::GetPlayers => RequestForm::GetPlayers,
        Request::ResetPlus => RequestForm::ResetPlus,
        Request::TakeCards { name, num } => RequestForm::TakeCards {
            name: name@,
            num: num as int,
        },
        Request::UseCard { name, card_index } => RequestForm::UseCard {
            name: name@,
            card_index: card_index as int,
        },
        Request::GetCards { name } => RequestForm::GetCards { name: name@ },
        Request::GetPlus => RequestForm::GetPlus,
        Request::GetCardNum { name } => RequestForm::GetCardNum { name: name@ },
        Request::CurrentTurn => RequestForm::CurrentTurn,
        Request::TopCard => RequestForm::TopCard,
        Request::CycleColorUp { name, card_index } => RequestForm::CycleColorUp {
            name: name@,
            card_index: card_index as int,
        },
        Request::CycleColorDown { name, card_index } => RequestForm::CycleColorDown {
            name: name@,
            card_index: card_index as int,
        },
    }
}

/// The text of an optional extracted field.
pub open spec fn opt_text(s: Option<String>) -> Option<Seq<char>> {
    match s {
        Some(t) => Some(t@),
        None => None,
    }
}

/// The exact decode table: which request shape a given set of extracted
/// fields denotes, or nothing for an unknown kind, a missing required
/// field, or a count or index outside `[0, u32::MAX]`.
pub open spec fn spec_form_of(
    rtype: Seq<char>,
    name: Option<Seq<char>>,
    num: Option<i64>,
    card_index: Option<i64>,
) -> Option<RequestForm> {
    if rtype == "join"@ {
        match name {
            Some(n) => Some(RequestForm::Join { name: n }),
            None => None,
        }
    } else if rtype == "get_players"@ {
        Some(RequestForm::GetPlayers)
    } else if rtype == "reset_plus"@ {
        Some(RequestForm::ResetPlus)
    } else if rtype == "take_cards"@ {
        match (name, num) {
            (Some(n), Some(k)) => if 0 <= k && k <= u32::MAX as i64 {
                Some(RequestForm::TakeCards { name: n, num: k as int })
            } else {
                None
            },
            _ => None,
        }
    } else if rtype == "use_card"@ {
        match (name, card_index) {
            (Some(n), Some(ci)) => if 0 <= ci && ci <= u32::MAX as i64 {
                Some(RequestForm::UseCard { name: n, card_index: ci as int })
            } else {
                None
            },
            _ => None,
        }
    } else if rtype == "get_cards"@ {
        match name {
            Some(n) => Some(RequestForm::GetCards { name: n }),
            None => None,
        }
    } else if rtype == "get_plus"@ {
        Some(RequestForm::GetPlus)
    } else if rtype == "get_card_num"@ {
        match name {
            Some(n) => Some(RequestForm::GetCardNum { name: n }),
            None => None,
        }
    } else if rtype == "current_turn"@ {
        Some(RequestForm::CurrentTurn)
    } else if rtype == "top_card"@ {
        Some(RequestForm::TopCard)
    } else if rtype == "cycle_color_up"@ {
        match (name, card_index) {
            (Some(n), Some(ci)) => if 0 <= ci && ci <= u32::MAX as i64 {
                Some(RequestForm::CycleColorUp { name: n, card_index: ci as int })
            } else {
                None
            },
            _ => None,
        }
    } else if rtype == "cycle_color_down"@ {
        match (name, card_index) {
            (Some(n), Some(ci)) => if 0 <= ci && ci <= u32::MAX as i64 {
                Some(RequestForm::CycleColorDown { name: n, card_index: ci as int })
            } else {
                None
            },
            _ => None,
        }
    } else {
        None
    }
}

/// What one payload decodes to: the trusted field extraction, composed
/// with the decode table.
pub open spec fn spec_decode(buf: Seq<u8>) -> Option<RequestForm> {
    match json_str_field(buf, "request_type"@) {
        Some(rt) => spec_form_of(
            rt,
            json_str_field(buf, "name"@),
            json_int_field(buf, "num"@),
            json_int_field(buf, "card_index"@),
        ),
        None => None,
    }
}

/// Assembles a request from the fields extracted out of one payload,
/// exactly as the decode table `spec_form_of` says.
pub fn from_fields(
    rtype: String,
    name: Option<String>,
    num: Option<i64>,
    card_index: Option<i64>,
) -> (r: Option<Request>)
    ensures
        match r {
            Some(req) => spec_form_of(rtype@, opt_text(name), num, card_index) == Some(
                request_form(req),
            ),
            None => spec_form_of(rtype@, opt_text(name), num, card_index).is_none(),
        },
{
    if rtype == String::from_str("join") {
        match &name {
            Some(n) => Some(Request::Join { name: n.clone() }),
            None => None,
        }
    } else if rtype == String::from_str("get_players") {
        Some(Request::GetPlayers)
    } else if rtype == String::from_str("reset_plus") {
        Some(Request::ResetPlus)
    } else if rtype == String::from_str("take_cards") {
        match (&name, &num) {
            (Some(n), Some(k)) => {
                let k = *k;
                if 0 <= k && k <= u32::MAX as i64 {
                    Some(Request::TakeCards { name: n.clone(), num: k as usize })
                } else {
                    None
                }
            },
            _ => None,
        }
    } else if rtype == String::from_str("use_card") {
        match (&name, &card_index) {
            (Some(n), Some(ci)) => {
                let ci = *ci;
                if 0 <= ci && ci <= u32::MAX as i64 {
                    Some(Request::UseCard { name: n.clone(), card_index: ci as usize })
                } else {
                    None
                }
            },
            _ => None,
        }
    } else if rtype == String::from_str("get_cards") {
        match &name {
            Some(n) => Some(Request::GetCards { name: n.clone() }),
            None => None,
        }
    } else if rtype == String::from_str("get_plus") {
        Some(Request::GetPlus)
    } else if rtype == String::from_str("get_card_num") {
        match &name {
            Some(n) => Some(Request::GetCardNum { name: n.clone() }),
            None => None,
        }
    } else if rtype == String::from_str("current_turn") {
        Some(Request::CurrentTurn)
    } else if rtype == String::from_str("top_card") {
        Some(Request::TopCard)
    } else if rtype == String::from_str("cycle_color_up") {
        match (&name, &card_index) {
            (Some(n), Some(ci)) => {
                let ci = *ci;
                if 0 <= ci && ci <= u32::MAX as i64 {
                    Some(Request::CycleColorUp { name: n.clone(), card_index: ci as usize })
                } else {
                    None
                }
            },
            _ => None,
        }
    } else if rtype == String::from_str("cycle_color_down") {
        match (&name, &card_index) {
            (Some(n), Some(ci)) => {
                let ci = *ci;
                if 0 <= ci && ci <= u32::MAX as i64 {
                    Some(Request::CycleColorDown { name: n.clone(), card_index: ci as usize })
                } else {
                    None
                }
            },
            _ => None,
        }
    } else {
        None
    }
}

/// Decodes one request payload: exactly what `spec_decode` maps the bytes
/// to. The JSON parse and field reads are trusted calls into serde_json;
/// everything decided from the extracted fields goes through
/// `from_fields`. A malformed payload yields `None` and must be ignored
/// by the server, never crash it.
pub fn decode_request(buf: &[u8]) -> (r: Option<Request>)
    ensures
        match r {
            Some(req) => spec_decode(buf@) == Some(request_form(req)),
            None => spec_decode(buf@).is_none(),
        },
{
    let rtype = match get_str_field(buf, "request_type") {
        Some(s) => s,
        None => {
            return None;
        },
    };
    let name = get_str_field(buf, "name");
    let num = get_int_field(buf, "num");
    let card_index = get_int_field(buf, "card_index");
    from_fields(rtype, name, num, card_index)
}

/// The seat of the first player with this name, searching from seat `i`.
pub open spec fn spec_find_from(players: Seq<Player>, name: Seq<char>, i: int) -> Option<int>
    decreases players.len() - i
        when 0 <= i <= players.len()
{
    if i >= players.len() {
        None
    } else if players[i].name@ == name {
        Some(i)
    } else {
        spec_find_from(players, name, i + 1)
    }
}

/// The seat of the first player with this name, if any: names are meant
/// to be unique, and joins that would duplicate one are rejected.
pub open spec fn spec_find_player(players: Seq<Player>, name: Seq<char>) -> Option<int> {
    spec_find_from(players, name, 0)
}

/// No two seated players share a name: what rejecting duplicate joins
/// maintains, and what makes a name a player's identifier.
pub open spec fn names_unique(players: Seq<Player>) -> bool {
    forall|x: int, y: int|
        #![trigger players[x].name, players[y].name]
        0 <= x < y < players.len() ==> players[x].name@ != players[y].name@
}

/// A search that found nothing means no seat from `i` on bears the name.
proof fn lemma_find_none_no_match(players: Seq<Player>, name: Seq<char>, i: int)
    requires
        0 <= i <= players.len(),
        spec_find_from(players, name, i).is_none(),
    ensures
        forall|j: int| i <= j < players.len() ==> players[j].name@ != name,
    decreases players.len() - i,
{
    if i < players.len() {
        lemma_find_none_no_match(players, name, i + 1);
    }
}

/// Uniqueness carries over to any seating with the same names seat by seat.
proof fn lemma_names_unique_pointwise(a: Seq<Player>, b: Seq<Player>)
    requires
        a.len() == b.len(),
        forall|x: int| 0 <= x < a.len() ==> a[x].name == b[x].name,
        names_unique(a),
    ensures
        names_unique(b),
{
    assert forall|x: int, y: int| 0 <= x < y < b.len() implies b[x].name@ != b[y].name@ by {
        assert(a[x].name == b[x].name);
        assert(a[y].name == b[y].name);
        assert(a[x].name@ != a[y].name@);
    }
}

/// Finds the seat of the player with this name.
pub fn find_player(players: &Vec<Player>, name: &String) -> (r: Option<usize>)
    ensures
        match r {
            Some(i) => spec_find_player(players@, name@) == Some(i as int) && (i as int)
                < players@.len(),
            None => spec_find_player(players@, name@).is_none(),
        },
{
    let mut i: usize = 0;
    while i < players.len()
        invariant
            i <= players@.len(),
            spec_find_player(players@, name@) == spec_find_from(players@, name@, i as int),
        decreases players@.len() - i,
    {
        if players[i].name == *name {
            return Some(i);
        }
        i = i + 1;
    }
    None
}

/// Copies a hand for a read-only response.
fn copy_cards(cards: &Vec<Card>) -> (r: Vec<Card>)
    ensures
        r@ == cards@,
{
    let mut r: Vec<Card> = Vec::new();
    let mut i: usize = 0;
    while i < cards.len()
        invariant
            i <= cards@.len(),
            r@ == cards@.take(i as int),
        decreases cards@.len() - i,
    {
        r.push(cards[i]);
        proof {
            assert(cards@.take(i as int).push(cards@[i as int]) =~= cards@.take(i as int + 1));
        }
        i = i + 1;
    }
    proof {
        assert(cards@.take(cards@.len() as int) =~= cards@);
    }
    r
}

/// Summarizes the seating: names and hand sizes only, so a player's hand
/// is never exposed to the others.
fn player_infos(players: &Vec<Player>) -> (r: Vec<PlayerInfo>)
    ensures
        r@.len() == players@.len(),
        forall|j: int|
            0 <= j < players@.len() ==> r@[j].name == players@[j].name && r@[j].card_count
                == players@[j].cards@.len(),
{
    let mut r: Vec<PlayerInfo> = Vec::new();
    let mut i: usize = 0;
    while i < players.len()
        invariant
            i <= players@.len(),
            r@.len() == i,
            forall|j: int|
                0 <= j < i ==> r@[j].name == players@[j].name && r@[j].card_count
                    == players@[j].cards@.len(),
        decreases players@.len() - i,
    {
        r.push(PlayerInfo { name: players[i].name.clone(), card_count: players[i].cards.len() });
        i = i + 1;
    }
    r
}

/// Applies one decoded request to the shared game and produces its
/// response; the server calls this while holding exclusive access. Every
/// rule the server owes the protocol is enforced here: a join with a name
/// already seated is rejected; dealing and playing require the caller's
/// turn; indices are checked before use; an illegal card is a one-byte
/// rejection with the state unchanged. The card count stays at exactly
/// 108 across every request.
pub fn apply(game: &mut Game, req: Request) -> (resp: Response)
    requires
        old(game).wf(),
        old(game).total_cards() == 108,
    ensures
        final(game).wf(),
        final(game).total_cards() == 108,
        names_unique(old(game).players@) ==> names_unique(final(game).players@),
        ({
            let g0 = *old(game);
            let g1 = *final(game);
            match req {
                Request::Join { name } => {
                    let ok = g0.players@.len() < 255 && g0.deck@.len() >= 7 && spec_find_player(
                        g0.players@,
                        name@,
                    ).is_none();
                    if ok {
                        &&& resp == Response::Empty
                        &&& g1.players@ == g0.players@.push(g1.players@.last())
                        &&& g1.players@.len() == g0.players@.len() + 1
                        &&& g1.players@.last().name == name
                        &&& g1.players@.last().cards@ == g0.deck@.take(7)
                        &&& g1.deck@ == g0.deck@.skip(7)
                        &&& g1.direction == g0.direction
                        &&& g1.current_turn == g0.current_turn
                        &&& g1.last_card == g0.last_card
                        &&& g1.plus == g0.plus
                    } else {
                        resp == Response::Rejected && g1 == g0
                    }
                },
                Request::GetPlayers => {
                    &&& g1 == g0
                    &&& resp matches Response::Players(infos) && infos@.len() == g0.players@.len()
                        && (forall|j: int|
                        0 <= j < g0.players@.len() ==> infos@[j].name == g0.players@[j].name
                            && infos@[j].card_count == g0.players@[j].cards@.len())
                },
                Request::ResetPlus => {
                    &&& resp == Response::Empty
                    &&& g1 == (Game { plus: 0u8, ..g0 })
                },
                Request::TakeCards { name, num } => {
                    match spec_find_player(g0.players@, name@) {
                        Some(i) => {
                            if g0.current_turn as int == i {
                                let dealt = if num as int <= g0.deck@.len() {
                                    num as int
                                } else {
                                    g0.deck@.len() as int
                                };
                                &&& resp == Response::Empty
                                &&& g1.players@ == g0.players@.update(i, g1.players@[i])
                                &&& g1.players@[i].cards@ == g0.players@[i].cards@ + g0.deck@.take(
                                    dealt,
                                )
                                &&& g1.players@[i].name == g0.players@[i].name
                                &&& g1.deck@ == g0.deck@.skip(dealt)
                                &&& g1.current_turn as int == next_idx(
                                    g0.players@.len() as int,
                                    g0.current_turn as int,
                                    g0.direction,
                                )
                                &&& g1.direction == g0.direction
                                &&& g1.last_card == g0.last_card
                                &&& g1.plus == g0.plus
                            } else {
                                resp == Response::Rejected && g1 == g0
                            }
                        },
                        None => resp == Response::Rejected && g1 == g0,
                    }
                },
                Request::UseCard { name, card_index } => {
                    match spec_find_player(g0.players@, name@) {
                        Some(i) => {
                            if g0.current_turn as int == i && (card_index as int)
                                < g0.players@[i].cards@.len() {
                                let c = g0.players@[i].cards@[card_index as int];
                                if g0.spec_can_use(c) && g0.plus + penalty_of(c.value) <= 255 {
                                    &&& resp == Response::Status(0)
                                    &&& g1.players@ == g0.players@.update(i, g1.players@[i])
                                    &&& g1.players@[i].cards@ == g0.players@[i].cards@.remove(
                                        card_index as int,
                                    )
                                    &&& g1.players@[i].name == g0.players@[i].name
                                    &&& g1.deck@ == g0.deck@.push(c)
                                    &&& g1.last_card == c
                                    &&& g1.plus == g0.plus + penalty_of(c.value)
                                    &&& g1.direction == dir_after_play(g0, c)
                                    &&& g1.current_turn as int == turn_after_play(g0, c)
                                } else {
                                    resp == Response::Status(1) && g1 == g0
                                }
                            } else {
                                resp == Response::Status(1) && g1 == g0
                            }
                        },
                        None => resp == Response::Status(1) && g1 == g0,
                    }
                },
                Request::GetCards { name } => {
                    &&& g1 == g0
                    &&& match spec_find_player(g0.players@, name@) {
                        Some(i) => resp matches Response::Cards(cs) && cs@
                            == g0.players@[i].cards@,
                        None => resp == Response::Rejected,
                    }
                },
                Request::GetPlus => g1 == g0 && resp == Response::Byte(g0.plus),
                Request::GetCardNum { name } => {
                    &&& g1 == g0
                    &&& match spec_find_player(g0.players@, name@) {
                        Some(i) => resp matches Response::Byte(n) && n as int
                            == g0.players@[i].cards@.len(),
                        None => resp == Response::Rejected,
                    }
                },
                Request::CurrentTurn => {
                    &&& g1 == g0
                    &&& if g0.players@.len() > 0 {
                        resp == Response::Text(g0.players@[g0.current_turn as int].name)
                    } else {
                        resp == Response::Rejected
                    }
                },
                Request::TopCard => g1 == g0 && resp == Response::TopCard(g0.last_card),
                Request::CycleColorUp { name, card_index } => {
                    match spec_find_player(g0.players@, name@) {
                        Some(i) => {
                            if (card_index as int) < g0.players@[i].cards@.len() {
                                &&& resp == Response::Empty
                                &&& g1.players@ == g0.players@.update(i, g1.players@[i])
                                &&& g1.players@[i].cards@ == g0.players@[i].cards@.update(
                                    card_index as int,
                                    spec_cycled_up(g0.players@[i].cards@[card_index as int]),
                                )
                                &&& g1.players@[i].name == g0.players@[i].name
                                &&& g1.deck@ == g0.deck@
                                &&& g1.direction == g0.direction
                                &&& g1.current_turn == g0.current_turn
                                &&& g1.last_card == g0.last_card
                                &&& g1.plus == g0.plus
                            } else {
                                resp == Response::Rejected && g1 == g0
                            }
                        },
                        None => resp == Response::Rejected && g1 == g0,
                    }
                },
                Request::CycleColorDown { name, card_index } => {
                    match spec_find_player(g0.players@, name@) {
                        Some(i) => {
                            if (card_index as int) < g0.players@[i].cards@.len() {
                                &&& resp == Response::Empty
                                &&& g1.players@ == g0.players@.update(i, g1.players@[i])
                                &&& g1.players@[i].cards@ == g0.players@[i].cards@.update(
                                    card_index as int,
                                    spec_cycled_down(g0.players@[i].cards@[card_index as int]),
                                )
                                &&& g1.players@[i].name == g0.players@[i].name
                                &&& g1.deck@ == g0.deck@
                                &&& g1.direction == g0.direction
                                &&& g1.current_turn == g0.current_turn
                                &&& g1.last_card == g0.last_card
                                &&& g1.plus == g0.plus
                            } else {
                                resp == Response::Rejected && g1 == g0
                            }
                        },
                        None => resp == Response::Rejected && g1 == g0,
                    }
                },
            }
        }),
{
    match req {
        Request::Join { name } => {
            if game.players.len() >= 255 {
                return Response::Rejected;
            }
            if game.deck.len() < 7 {
                return Response::Rejected;
            }
            let seat = find_player(&game.players, &name);
            if seat.is_some() {
                return Response::Rejected;
            }
            let ghost name0 = name@;
            let ghost players0 = game.players@;
            let p = Player::new(name);
            game.add_player(p);
            proof {
                if names_unique(players0) {
                    lemma_find_none_no_match(players0, name0, 0);
                    assert forall|x: int, y: int|
                        0 <= x < y < game.players@.len() implies game.players@[x].name@
                        != game.players@[y].name@ by {
                        if y < players0.len() {
                            assert(players0[x].name@ != players0[y].name@);
                        } else {
                            assert(game.players@[x].name == players0[x].name);
                            assert(players0[x].name@ != name0);
                        }
                    }
                    assert(names_unique(game.players@));
                }
            }
            Response::Empty
        },
        Request::GetPlayers => Response::Players(player_infos(&game.players)),
        Request::ResetPlus => {
            game.plus = 0;
            Response::Empty
        },
        Request::TakeCards { name, num } => {
            let seat = find_player(&game.players, &name);
            match seat {
                Some(i) => {
                    if game.current_turn as usize == i {
                        let id = game.current_turn;
                        let ghost players0 = game.players@;
                        game.deal_cards(id, num);
                        game.cycle_turn();
                        proof {
                            if names_unique(players0) {
                                lemma_names_unique_pointwise(players0, game.players@);
                            }
                        }
                        Response::Empty
                    } else {
                        Response::Rejected
                    }
                },
                None => Response::Rejected,
            }
        },
        Request::UseCard { name, card_index } => {
            let seat = find_player(&game.players, &name);
            match seat {
                Some(i) => {
                    if game.current_turn as usize != i {
                        return Response::Status(1);
                    }
                    if card_index >= game.players[i].cards.len() {
                        return Response::Status(1);
                    }
                    let c: Card = game.players[i].cards[card_index];
                    if !game.can_use(c) {
                        return Response::Status(1);
                    }
                    let pen: u8 = match c.value {
                        CardValue::PlusTwo => 2,
                        CardValue::WildPlusFour => 4,
                        _ => 0,
                    };
                    if game.plus > 255 - pen {
                        return Response::Status(1);
                    }
                    let ghost players0 = game.players@;
                    let mut p = game.players.remove(i);
                    let taken = p.take_card(card_index);
                    game.players.insert(i, p);
                    proof {
                        assert(game.players@ =~= players0.update(i as int, game.players@[i as int]));
                        lemma_hands_total_update(players0, i as int, game.players@[i as int]);
                    }
                    let ok = game.play_card(taken);
                    assert(ok);
                    proof {
                        if names_unique(players0) {
                            lemma_names_unique_pointwise(players0, game.players@);
                        }
                    }
                    Response::Status(0)
                },
                None => Response::Status(1),
            }
        },
        Request::GetCards { name } => {
            let seat = find_player(&game.players, &name);
            match seat {
                Some(i) => Response::Cards(copy_cards(&game.players[i].cards)),
                None => Response::Rejected,
            }
        },
        Request::GetPlus => Response::Byte(game.plus),
        Request::GetCardNum { name } => {
            let seat = find_player(&game.players, &name);
            match seat {
                Some(i) => {
                    proof {
                        lemma_hand_le_total(game.players@, i as int);
                    }
                    let n = game.players[i].cards.len();
                    Response::Byte(n as u8)
                },
                None => Response::Rejected,
            }
        },
        Request::CurrentTurn => {
            if game.players.len() > 0 {
                Response::Text(game.players[game.current_turn as usize].name.clone())
            } else {
                Response::Rejected
            }
        },
        Request::TopCard => Response::TopCard(game.last_card),
        Request::CycleColorUp { name, card_index } => {
            let seat = find_player(&game.players, &name);
            match seat {
                Some(i) => {
                    if card_index < game.players[i].cards.len() {
                        let ghost players0 = game.players@;
                        let mut p = game.players.remove(i);
                        p.cycle_card_up(card_index);
                        game.players.insert(i, p);
                        proof {
                            assert(game.players@ =~= players0.update(
                                i as int,
                                game.players@[i as int],
                            ));
                            lemma_hands_total_update(players0, i as int, game.players@[i as int]);
                            if names_unique(players0) {
                                lemma_names_unique_pointwise(players0, game.players@);
                            }
                        }
                        Response::Empty
                    } else {
                        Response::Rejected
                    }
                },
                None => Response::Rejected,
            }
        },
        Request::CycleColorDown { name, card_index } => {
            let seat = find_player(&game.players, &name);
            match seat {
                Some(i) => {
                    if card_index < game.players[i].cards.len() {
                        let ghost players0 = game.players@;
                        let mut p = game.players.remove(i);
                        p.cycle_card_down(card_index);
                        game.players.insert(i, p);
                        proof {
                            assert(game.players@ =~= players0.update(
                                i as int,
                                game.players@[i as int],
                            ));
                            lemma_hands_total_update(players0, i as int, game.players@[i as int]);
                            if names_unique(players0) {
                                lemma_names_unique_pointwise(players0, game.players@);
                            }
                        }
                        Response::Empty
                    } else {
                        Response::Rejected
                    }
                },
                None => Response::Rejected,
            }
        },
    }
}

} // verus!
