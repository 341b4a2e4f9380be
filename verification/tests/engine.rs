//! Scenario tests for the card model and the turn/penalty engine.

use uno::card::{Card, CardColor, CardValue};
use uno::game::{Direction, Game};
use uno::player::Player;
use uno::protocol::{apply, Request, Response};

fn hands_sum(g: &Game) -> usize {
    let mut sum = 0;
    for p in &g.players {
        sum += p.cards.len();
    }
    sum
}

fn total_cards(g: &Game) -> usize {
    g.deck.len() + hands_sum(g) + 1
}

#[test]
fn wild_color_cycling() {
    let mut c = Card::wild();
    assert_eq!(c.color, CardColor::NoColor);
    c.cycle_colors_up();
    assert_eq!(c.color, CardColor::Red);
    c.cycle_colors_up();
    assert_eq!(c.color, CardColor::Green);
    c.cycle_colors_up();
    assert_eq!(c.color, CardColor::Blue);
    c.cycle_colors_up();
    assert_eq!(c.color, CardColor::Yellow);
    c.cycle_colors_up();
    assert_eq!(c.color, CardColor::Red);
}

#[test]
fn wild_color_cycling_down() {
    let mut c = Card::wild_plus_four();
    assert_eq!(c.color, CardColor::NoColor);
    c.cycle_colors_down();
    assert_eq!(c.color, CardColor::Red);
    c.cycle_colors_down();
    assert_eq!(c.color, CardColor::Yellow);
}

#[test]
fn cycling_non_wild_is_noop() {
    let mut c = Card::skip(CardColor::Blue);
    c.cycle_colors_up();
    assert_eq!(c.color, CardColor::Blue);
    c.cycle_colors_down();
    assert_eq!(c.color, CardColor::Blue);
}

#[test]
fn legality_truth_table() {
    let mut g = Game::new();
    g.last_card = Card::plus_two(CardColor::Red);
    g.plus = 2;
    assert!(!g.can_use(Card::skip(CardColor::Red)));
    assert!(g.can_use(Card::plus_two(CardColor::Blue)));
    assert!(!g.can_use(Card::wild_plus_four()));
}

#[test]
fn legality_without_penalty() {
    let mut g = Game::new();
    g.last_card = Card::new(CardValue::Num(5), CardColor::Red);
    g.plus = 0;
    // Matching value or color is legal; a colored wild is always legal;
    // an uncolored wild matches nothing.
    assert!(g.can_use(Card::new(CardValue::Num(5), CardColor::Blue)));
    assert!(g.can_use(Card::skip(CardColor::Red)));
    assert!(!g.can_use(Card::skip(CardColor::Blue)));
    assert!(g.can_use(Card::new(CardValue::Wild, CardColor::Green)));
    assert!(!g.can_use(Card::wild()));
}

#[test]
fn reverse_as_skip_two_players() {
    let mut g = Game::new();
    g.add_player(Player::new(String::from("A")));
    g.add_player(Player::new(String::from("B")));
    assert_eq!(g.current_turn, 0);
    g.last_card = Card::new(CardValue::Num(5), CardColor::Red);
    g.plus = 0;
    let ok = g.play_card(Card::reverse(CardColor::Red));
    assert!(ok);
    assert_eq!(g.current_turn, 0);
}

#[test]
fn skip_advances_twice() {
    let mut g = Game::new();
    g.add_player(Player::new(String::from("A")));
    g.add_player(Player::new(String::from("B")));
    g.add_player(Player::new(String::from("C")));
    assert_eq!(g.current_turn, 0);
    g.last_card = Card::new(CardValue::Num(5), CardColor::Red);
    g.plus = 0;
    let ok = g.play_card(Card::skip(CardColor::Red));
    assert!(ok);
    // Direction Right decrements with wrap: 0 -> 2 -> 1.
    assert_eq!(g.current_turn, 1);
}

#[test]
fn penalty_stacking_and_resolution() {
    let mut g = Game::new();
    g.add_player(Player::new(String::from("A")));
    g.add_player(Player::new(String::from("B")));
    g.last_card = Card::new(CardValue::Num(5), CardColor::Red);
    g.plus = 0;

    // A stacks a PlusTwo.
    assert!(g.play_card(Card::plus_two(CardColor::Red)));
    assert_eq!(g.plus, 2);
    assert_eq!(g.current_turn, 1);

    // B stacks a WildPlusFour colored Red.
    let mut wild4 = Card::wild_plus_four();
    wild4.cycle_colors_up();
    assert!(g.play_card(wild4));
    assert_eq!(g.plus, 6);
    assert_eq!(g.current_turn, 0);

    // A absorbs the penalty: draws exactly six and the counter resets.
    let owed = uno::game::resolution_draw_count(g.plus);
    assert_eq!(owed, 6);
    let before = g.players[0].cards.len();
    let resp = apply(&mut g, Request::TakeCards { name: String::from("A"), num: owed as usize });
    assert!(matches!(resp, Response::Empty));
    assert_eq!(g.players[0].cards.len(), before + 6);
    let resp = apply(&mut g, Request::ResetPlus);
    assert!(matches!(resp, Response::Empty));
    assert_eq!(g.plus, 0);
}

#[test]
fn illegal_play_changes_nothing() {
    let mut g = Game::new();
    g.add_player(Player::new(String::from("A")));
    g.last_card = Card::new(CardValue::Num(5), CardColor::Red);
    g.plus = 0;
    let deck_before = g.deck.len();
    let turn_before = g.current_turn;
    let ok = g.play_card(Card::new(CardValue::Num(6), CardColor::Blue));
    assert!(!ok);
    assert_eq!(g.deck.len(), deck_before);
    assert_eq!(g.current_turn, turn_before);
    assert_eq!(g.plus, 0);
}

#[test]
fn turn_monotonicity() {
    let mut g = Game::new();
    g.add_player(Player::new(String::from("A")));
    // A single seated player is always next.
    assert_eq!(g.next_player(), 0);

    g.add_player(Player::new(String::from("B")));
    g.add_player(Player::new(String::from("C")));
    g.add_player(Player::new(String::from("D")));
    // Direction Right decrements with wrap.
    assert_eq!(g.current_turn, 0);
    assert_eq!(g.next_player(), 3);
    // Direction Left increments with wrap.
    g.direction = Direction::Left;
    assert_eq!(g.next_player(), 1);
    g.current_turn = 3;
    assert_eq!(g.next_player(), 0);
}

#[test]
fn card_conservation() {
    let mut g = Game::new();
    assert_eq!(total_cards(&g), 108);

    for name in ["A", "B", "C"] {
        let resp = apply(&mut g, Request::Join { name: String::from(name) });
        assert!(matches!(resp, Response::Empty));
        assert_eq!(total_cards(&g), 108);
    }

    // The current player draws two cards.
    let resp = apply(&mut g, Request::TakeCards { name: String::from("A"), num: 2 });
    assert!(matches!(resp, Response::Empty));
    assert_eq!(total_cards(&g), 108);

    // The next player plays a surely legal card: the discard top is set to
    // the very card at their hand's front, which always matches by value.
    let turn = g.current_turn as usize;
    let name = g.players[turn].name.clone();
    g.last_card = g.players[turn].cards[0];
    g.plus = 0;
    let resp = apply(&mut g, Request::UseCard { name, card_index: 0 });
    assert!(matches!(resp, Response::Status(0)));
    assert_eq!(total_cards(&g), 108);
}

#[test]
fn end_to_end_scenario() {
    let mut g = Game::new();
    for name in ["A", "B", "C", "D"] {
        let resp = apply(&mut g, Request::Join { name: String::from(name) });
        assert!(matches!(resp, Response::Empty));
    }
    // 108 cards, less 7 dealt to each of 4 players, less the discard top.
    assert_eq!(g.deck.len(), 79);
    assert_eq!(g.current_turn, 0);

    // A plays a numbered card matching the discard top by color. Dealing
    // extra cards to A until the hand holds a numbered card keeps the
    // scenario deterministic whatever the shuffle dealt.
    let mut num_at = None;
    loop {
        for (i, c) in g.players[0].cards.iter().enumerate() {
            if matches!(c.value, CardValue::Num(_)) {
                num_at = Some(i);
                break;
            }
        }
        if num_at.is_some() {
            break;
        }
        assert!(g.take_card(0));
    }
    let i = num_at.unwrap();
    let color = g.players[0].cards[i].color;
    g.last_card = Card::new(CardValue::Num(0), color);
    g.plus = 0;
    let resp = apply(&mut g, Request::UseCard { name: String::from("A"), card_index: i });
    assert!(matches!(resp, Response::Status(0)));
    // Direction Right wraps from A's seat 0 to D's seat 3.
    assert_eq!(g.current_turn, 3);
}

#[test]
fn resolution_draw_counts() {
    // With a penalty pending the player owes exactly that many draws;
    // with none pending, a plain draw is one card.
    assert_eq!(uno::game::resolution_draw_count(0), 1);
    assert_eq!(uno::game::resolution_draw_count(2), 2);
    assert_eq!(uno::game::resolution_draw_count(6), 6);
}

#[test]
fn direction_flip() {
    let mut d = Direction::Right;
    let n = d.flip();
    assert_eq!(d, Direction::Left);
    assert_eq!(n, Direction::Left);
    d.flip();
    assert_eq!(d, Direction::Right);
}

#[test]
fn winner_detection() {
    let mut g = Game::new();
    g.add_player(Player::new(String::from("A")));
    g.add_player(Player::new(String::from("B")));
    assert_eq!(uno::game::find_winner(&g.players), None);
    while !g.players[1].cards.is_empty() {
        g.players[1].take_card(0);
    }
    assert_eq!(uno::game::find_winner(&g.players), Some(1));
}

#[test]
fn game_new_initial_state() {
    let g = Game::new();
    assert_eq!(g.players.len(), 0);
    assert_eq!(g.current_turn, 0);
    assert_eq!(g.plus, 0);
    assert_eq!(g.deck.len(), 107);
    assert!(g.last_card.color != CardColor::NoColor);
}

#[test]
fn player_win_detection() {
    let mut p = Player::new(String::from("A"));
    assert!(p.won());
    p.add_card(Card::skip(CardColor::Red));
    assert!(!p.won());
    let c = p.take_card(0);
    assert_eq!(c, Card::skip(CardColor::Red));
    assert!(p.won());
}

#[test]
fn player_cycle_card() {
    let mut p = Player::new(String::from("A"));
    p.add_card(Card::wild());
    p.cycle_card_up(0);
    assert_eq!(p.cards[0].color, CardColor::Red);
    // Once colored, a wild never returns to uncolored: down from Red
    // wraps to Yellow.
    p.cycle_card_down(0);
    assert_eq!(p.cards[0].color, CardColor::Yellow);
}

#[test]
fn draw_from_empty_deck_fails() {
    let mut g = Game::new();
    g.add_player(Player::new(String::from("A")));
    // Drain the pile; every draw must succeed until it is empty.
    while g.deck.len() > 0 {
        assert!(g.take_card(0));
    }
    assert!(!g.take_card(0));
    // Dealing from an empty pile deals nothing and does not panic.
    assert_eq!(g.deal_cards(0, 5), 0);
}
