//! The turn/penalty state machine: legality of plays, turn order and
//! direction, penalty stacking, and card-count conservation.

use vstd::prelude::*;

use crate::card::{is_wild_value, Card, CardColor, CardValue};
use crate::deck::Deck;
use crate::player::Player;

verus! {

/// The seating order in which turns advance.
#[derive(Clone, Copy, Debug, PartialEq, Eq, Structural)]
pub enum Direction {
    Right,
    Left,
}

impl Direction {
    /// The opposite direction.
    pub open spec fn spec_flip(self) -> Direction {
        match self {
            Direction::Left => Direction::Right,
            Direction::Right => Direction::Left,
        }
    }

    /// Reverses the direction in place and reports the new one.
    pub fn flip(&mut self) -> (d: Direction)
        ensures
            *final(self) == old(self).spec_flip(),
            d == *final(self),
    {
        let flipped = match *self {
            Direction::Left => Direction::Right,
            Direction::Right => Direction::Left,
        };
        *self = flipped;
        flipped
    }
}

/// The number of cards held across a seating of players.
pub open spec fn hands_total(players: Seq<Player>) -> int
    decreases players.len(),
{
    if players.len() == 0 {
        0
    } else {
        hands_total(players.drop_last()) + players.last().cards@.len()
    }
}

/// Appending a player adds exactly that player's hand to the total.
pub proof fn lemma_hands_total_push(players: Seq<Player>, p: Player)
    ensures
        hands_total(players.push(p)) == hands_total(players) + p.cards@.len(),
{
    assert(players.push(p).drop_last() =~= players);
}

/// Replacing one player changes the total by the difference of the hands.
pub proof fn lemma_hands_total_update(players: Seq<Player>, i: int, p: Player)
    requires
        0 <= i < players.len(),
    ensures
        hands_total(players.update(i, p)) == hands_total(players) - players[i].cards@.len()
            + p.cards@.len(),
    decreases players.len(),
{
    let updated = players.update(i, p);
    if i == players.len() - 1 {
        assert(updated.drop_last() =~= players.drop_last());
    } else {
        lemma_hands_total_update(players.drop_last(), i, p);
        assert(updated.drop_last() =~= players.drop_last().update(i, p));
    }
}

/// No single hand exceeds the total over all hands.
pub proof fn lemma_hand_le_total(players: Seq<Player>, i: int)
    requires
        0 <= i < players.len(),
    ensures
        players[i].cards@.len() <= hands_total(players),
        hands_total(players) >= 0,
    decreases players.len(),
{
    if players.len() > 0 {
        if i == players.len() - 1 {
            lemma_hands_total_nonneg(players.drop_last());
        } else {
            lemma_hand_le_total(players.drop_last(), i);
        }
    }
}

/// A total over hands is never negative.
pub proof fn lemma_hands_total_nonneg(players: Seq<Player>)
    ensures
        hands_total(players) >= 0,
    decreases players.len(),
{
    if players.len() > 0 {
        lemma_hands_total_nonneg(players.drop_last());
    }
}

/// The index one step from `cur` in a seating of `len` players, wrapping
/// at both ends: Left increments, Right decrements.
pub open spec fn next_idx(len: int, cur: int, dir: Direction) -> int {
    match dir {
        Direction::Left => if cur + 1 >= len {
            0
        } else {
            cur + 1
        },
        Direction::Right => if cur == 0 {
            len - 1
        } else {
            cur - 1
        },
    }
}

/// The draw-resolution rule: a player who cannot or will not stack draws
/// exactly the pending penalty, and one single card when no penalty is
/// pending; the caller then resets the counter.
pub fn resolution_draw_count(plus: u8) -> (n: u8)
    ensures
        plus > 0 ==> n == plus,
        plus == 0 ==> n == 1,
{
    if plus > 0 {
        plus
    } else {
        1
    }
}

/// How much a played card adds to the pending penalty.
pub open spec fn penalty_of(v: CardValue) -> int {
    match v {
        CardValue::PlusTwo => 2,
        CardValue::WildPlusFour => 4,
        _ => 0,
    }
}

/// The direction after a play: a Reverse flips it, nothing else does.
pub open spec fn dir_after_play(g: Game, card: Card) -> Direction {
    if card.value == CardValue::Reverse {
        g.direction.spec_flip()
    } else {
        g.direction
    }
}

/// A play advances the turn twice rather than once for a Skip, and for a
/// Reverse among exactly two seated players (reverse-as-skip).
pub open spec fn extra_cycle(g: Game, card: Card) -> bool {
    card.value == CardValue::Skip || (card.value == CardValue::Reverse && g.players@.len() == 2)
}

/// The current turn after a play: the direction settles first, then the
/// turn advances once, or twice where `extra_cycle` holds.
pub open spec fn turn_after_play(g: Game, card: Card) -> int {
    let d = dir_after_play(g, card);
    let len = g.players@.len() as int;
    let t1 = if extra_cycle(g, card) {
        next_idx(len, g.current_turn as int, d)
    } else {
        g.current_turn as int
    };
    next_idx(len, t1, d)
}

/// The engine: seated players in join order, the draw pile, the discard
/// top, whose turn it is, and the accumulated draw penalty.
pub struct Game {
    pub players: Vec<Player>,
    pub deck: Deck,
    pub direction: Direction,
    pub current_turn: u8,
    pub last_card: Card,
    pub plus: u8,
}

impl Game {
    /// The turn index stays within the seating, and the seating stays
    /// small enough for the one-byte turn counter.
    pub open spec fn wf(self) -> bool {
        &&& self.players@.len() <= 255
        &&& (self.players@.len() == 0 ==> self.current_turn == 0)
        &&& (self.players@.len() > 0 ==> (self.current_turn as int) < self.players@.len())
    }

    /// Every card of the universe is in the draw pile, in some hand, or is
    /// the discard top; this count is what every reachable state conserves.
    pub open spec fn total_cards(self) -> int {
        self.deck@.len() + hands_total(self.players@) + 1
    }

    /// The legality rule. Facing a pending penalty, only a stacking
    /// PlusTwo/WildPlusFour that matches by value or color may be played;
    /// otherwise a colored wild is always legal, and any other card must
    /// match the discard top by value or color.
    pub open spec fn spec_can_use(self, card: Card) -> bool {
        if self.plus != 0 {
            (card.value == CardValue::WildPlusFour || card.value == CardValue::PlusTwo) && (
            self.last_card.value == card.value || self.last_card.color == card.color)
        } else if is_wild_value(card.value) && card.color != CardColor::NoColor {
            true
        } else {
            self.last_card.value == card.value || self.last_card.color == card.color
        }
    }

    /// A fresh match: no players, a full shuffled pile less the starting
    /// discard, direction Right, turn zero, no penalty. An uncolored
    /// starting draw is forced to Red, so the discard top always has a
    /// color to match.
    pub fn new() -> (g: Game)
        ensures
            g.wf(),
            g.players@.len() == 0,
            g.current_turn == 0,
            g.plus == 0,
            g.direction == Direction::Right,
            g.deck@.len() == 107,
            g.total_cards() == 108,
            g.last_card.color != CardColor::NoColor,
            exists|c: Card|
                g.deck@.to_multiset().insert(c) == crate::deck::full_universe().to_multiset() && (
                g.last_card == c || (c.color == CardColor::NoColor && g.last_card == (Card {
                    value: c.value,
                    color: CardColor::Red,
                }))),
    {
        let mut deck = Deck::new();
        let ghost pile0 = deck@;
        let mut starting_card = deck.take_card().unwrap();
        proof {
            broadcast use vstd::seq_lib::group_to_multiset_ensures;

            assert(pile0.to_multiset().count(pile0[0]) > 0);
            assert(deck@.to_multiset().insert(pile0[0]) =~= pile0.to_multiset());
        }
        if starting_card.color == CardColor::NoColor {
            starting_card.color = CardColor::Red;
        }
        let g = Game {
            players: Vec::new(),
            deck,
            direction: Direction::Right,
            current_turn: 0,
            last_card: starting_card,
            plus: 0,
        };
        proof {
            let drawn = pile0[0];
            assert(g.deck@.to_multiset().insert(drawn)
                == crate::deck::full_universe().to_multiset());
            assert(g.last_card == drawn || (drawn.color == CardColor::NoColor && g.last_card
                == (Card { value: drawn.value, color: CardColor::Red })));
        }
        g
    }

    /// Whether `card` may legally be played now.
    pub fn can_use(&self, card: Card) -> (r: bool)
        ensures
            r == self.spec_can_use(card),
    {
        if self.plus != 0 {
            return (card.value == CardValue::WildPlusFour || card.value == CardValue::PlusTwo)
                && (self.last_card.value == card.value || self.last_card.color == card.color);
        }

        if (card.value == CardValue::Wild || card.value == CardValue::WildPlusFour) && card.color
            != CardColor::NoColor {
            return true;
        }

        if self.last_card.value == card.value || self.last_card.color == card.color {
            return true;
        }

        false
    }

    /// Seats a player at the end of the join order and deals them seven
    /// cards off the front of the pile.
    pub fn add_player(&mut self, player: Player)
        requires
            old(self).wf(),
            old(self).players@.len() < 255,
            old(self).deck@.len() >= 7,
        ensures
            final(self).wf(),
            final(self).players@.len() == old(self).players@.len() + 1,
            final(self).players@ == old(self).players@.push(final(self).players@.last()),
            final(self).players@.last().name == player.name,
            final(self).players@.last().frozen == player.frozen,
            final(self).players@.last().cards@ == player.cards@ + old(self).deck@.take(7),
            final(self).deck@ == old(self).deck@.skip(7),
            final(self).total_cards() == old(self).total_cards() + player.cards@.len(),
            final(self).direction == old(self).direction,
            final(self).current_turn == old(self).current_turn,
            final(self).last_card == old(self).last_card,
            final(self).plus == old(self).plus,
    {
        let ghost deck0 = self.deck@;
        let ghost players0 = self.players@;
        let ghost g0 = *old(self);
        let mut p = player;
        let mut k: usize = 0;
        while k < 7
            invariant
                k <= 7,
                deck0.len() >= 7,
                self.deck@ == deck0.skip(k as int),
                p.cards@ == player.cards@ + deck0.take(k as int),
                p.name == player.name,
                p.frozen == player.frozen,
                self.players@ == players0,
                self.direction == g0.direction,
                self.current_turn == g0.current_turn,
                self.last_card == g0.last_card,
                self.plus == g0.plus,
            decreases 7 - k,
        {
            assert(self.deck@.len() == deck0.len() - k);
            self.deck.give_card(&mut p);
            proof {
                assert(deck0.skip(k as int).remove(0) =~= deck0.skip(k as int + 1));
                assert(deck0.take(k as int).push(deck0.skip(k as int)[0]) =~= deck0.take(
                    k as int + 1,
                ));
            }
            k = k + 1;
        }
        self.players.push(p);
        proof {
            lemma_hands_total_push(players0, p);
            assert(self.deck@.len() == deck0.len() - 7);
        }
    }

    /// The seat that plays next: one step from the current turn in the
    /// current direction, wrapping at both ends. Always a valid index;
    /// with a single seated player it is always that player.
    pub fn next_player(&self) -> (r: u8)
        requires
            self.wf(),
            self.players@.len() > 0,
        ensures
            r as int == next_idx(self.players@.len() as int, self.current_turn as int,
                self.direction),
            (r as int) < self.players@.len(),
            self.players@.len() == 1 ==> r == 0,
    {
        let len = self.players.len();
        match self.direction {
            Direction::Left => {
                if self.current_turn as usize + 1 >= len {
                    0
                } else {
                    self.current_turn + 1
                }
            },
            Direction::Right => {
                if self.current_turn == 0 {
                    (len - 1) as u8
                } else {
                    self.current_turn - 1
                }
            },
        }
    }

    /// Commits `next_player` as the current turn.
    pub fn cycle_turn(&mut self)
        requires
            old(self).wf(),
            old(self).players@.len() > 0,
        ensures
            final(self).wf(),
            final(self).current_turn as int == next_idx(old(self).players@.len() as int,
                old(self).current_turn as int, old(self).direction),
            final(self).players@ == old(self).players@,
            final(self).deck@ == old(self).deck@,
            final(self).direction == old(self).direction,
            final(self).last_card == old(self).last_card,
            final(self).plus == old(self).plus,
    {
        self.current_turn = self.next_player();
    }

    /// Deals the front card of the pile to the player at `id`. Reports
    /// `false`, changing nothing, when the pile is empty: exhaustion is an
    /// error condition to recover from, never a panic.
    pub fn take_card(&mut self, id: u8) -> (ok: bool)
        requires
            old(self).wf(),
            (id as int) < old(self).players@.len(),
        ensures
            final(self).wf(),
            ok == (old(self).deck@.len() > 0),
            !ok ==> *final(self) == *old(self),
            ok ==> final(self).players@ == old(self).players@.update(
                id as int,
                final(self).players@[id as int],
            ),
            ok ==> final(self).players@[id as int].cards@ == old(self).players@[id as int].cards@
                .push(old(self).deck@[0]),
            ok ==> final(self).players@[id as int].name == old(self).players@[id as int].name,
            ok ==> final(self).deck@ == old(self).deck@.remove(0),
            final(self).total_cards() == old(self).total_cards(),
            final(self).direction == old(self).direction,
            final(self).current_turn == old(self).current_turn,
            final(self).last_card == old(self).last_card,
            final(self).plus == old(self).plus,
    {
        if self.deck.len() == 0 {
            return false;
        }
        let ghost players0 = self.players@;
        let mut p = self.players.remove(id as usize);
        self.deck.give_card(&mut p);
        self.players.insert(id as usize, p);
        proof {
            assert(self.players@ =~= players0.update(id as int, p));
            lemma_hands_total_update(players0, id as int, p);
        }
        true
    }

    /// Deals up to `num` cards off the front of the pile to the player at
    /// `id`, stopping early if the pile runs dry (with every played card
    /// returned to the pile, a dry pile means everything else is already
    /// in hands, so there is no discard pile left to reshuffle). Reports
    /// how many cards were actually dealt.
    pub fn deal_cards(&mut self, id: u8, num: usize) -> (dealt: usize)
        requires
            old(self).wf(),
            (id as int) < old(self).players@.len(),
        ensures
            final(self).wf(),
            dealt as int == if num as int <= old(self).deck@.len() {
                num as int
            } else {
                old(self).deck@.len() as int
            },
            final(self).players@ == old(self).players@.update(
                id as int,
                final(self).players@[id as int],
            ),
            final(self).players@[id as int].cards@ == old(self).players@[id as int].cards@ + old(
                self,
            ).deck@.take(dealt as int),
            final(self).players@[id as int].name == old(self).players@[id as int].name,
            final(self).deck@ == old(self).deck@.skip(dealt as int),
            final(self).total_cards() == old(self).total_cards(),
            final(self).direction == old(self).direction,
            final(self).current_turn == old(self).current_turn,
            final(self).last_card == old(self).last_card,
            final(self).plus == old(self).plus,
    {
        let ghost g0 = *old(self);
        let ghost deck0 = self.deck@;
        let ghost players0 = self.players@;
        let mut p = self.players.remove(id as usize);
        let ghost hand0 = p.cards@;
        let mut k: usize = 0;
        while k < num && self.deck.len() > 0
            invariant
                k <= num,
                k <= deck0.len(),
                self.deck@ == deck0.skip(k as int),
                p.cards@ == hand0 + deck0.take(k as int),
                p.name == players0[id as int].name,
                p.frozen == players0[id as int].frozen,
                self.players@ == players0.remove(id as int),
                self.direction == g0.direction,
                self.current_turn == g0.current_turn,
                self.last_card == g0.last_card,
                self.plus == g0.plus,
            decreases num - k,
        {
            assert(self.deck@.len() == deck0.len() - k);
            self.deck.give_card(&mut p);
            proof {
                assert(deck0.skip(k as int).remove(0) =~= deck0.skip(k as int + 1));
                assert(deck0.take(k as int).push(deck0.skip(k as int)[0]) =~= deck0.take(
                    k as int + 1,
                ));
            }
            k = k + 1;
        }
        self.players.insert(id as usize, p);
        proof {
            assert(self.players@ =~= players0.update(id as int, p));
            lemma_hands_total_update(players0, id as int, p);
            assert(self.deck@.len() == deck0.len() - k);
        }
        k
    }

    /// Attempts a play. An illegal card changes nothing and reports
    /// failure. A legal card becomes the discard top, applies its side
    /// effect (penalty stacking, direction flip, skip), goes to the back
    /// of the pile, and the turn advances. Playing a Reverse among exactly
    /// two seated players leaves the turn where it was: it acts as a Skip.
    pub fn play_card(&mut self, card: Card) -> (ok: bool)
        requires
            old(self).wf(),
            old(self).players@.len() > 0,
            old(self).plus + penalty_of(card.value) <= u8::MAX,
        ensures
            final(self).wf(),
            ok == old(self).spec_can_use(card),
            !ok ==> *final(self) == *old(self),
            ok ==> final(self).last_card == card,
            ok ==> final(self).plus == old(self).plus + penalty_of(card.value),
            ok ==> final(self).direction == dir_after_play(*old(self), card),
            ok ==> final(self).current_turn as int == turn_after_play(*old(self), card),
            ok ==> final(self).deck@ == old(self).deck@.push(card),
            final(self).players@ == old(self).players@,
            ok ==> final(self).total_cards() == old(self).total_cards() + 1,
            ok && card.value == CardValue::Reverse && old(self).players@.len() == 2
                ==> final(self).current_turn == old(self).current_turn,
    {
        if !self.can_use(card) {
            return false;
        }

        self.last_card = card;

        match card.value {
            CardValue::Num(_) => {},
            CardValue::PlusTwo => {
                self.plus = self.plus + 2;
            },
            CardValue::WildPlusFour => {
                self.plus = self.plus + 4;
            },
            CardValue::Reverse => {
                self.direction.flip();
                if self.players.len() == 2 {
                    self.cycle_turn();
                }
            },
            CardValue::Skip => {
                self.cycle_turn();
            },
            CardValue::Wild => {},
        }
        self.deck.return_card(card);
        self.cycle_turn();
        true
    }
}

/// The first seat holding an empty hand, searching from seat `i`.
pub open spec fn spec_winner_from(players: Seq<Player>, i: int) -> Option<int>
    decreases players.len() - i
        when 0 <= i <= players.len()
{
    if i >= players.len() {
        None
    } else if players[i].cards@.len() == 0 {
        Some(i)
    } else {
        spec_winner_from(players, i + 1)
    }
}

/// The winner, if any: the first seated player whose hand is empty. The
/// engine does not halt on a win; observers check this and stop playing.
pub open spec fn spec_winner(players: Seq<Player>) -> Option<int> {
    spec_winner_from(players, 0)
}

/// Finds the first seated player who has won (an empty hand).
pub fn find_winner(players: &Vec<Player>) -> (r: Option<usize>)
    ensures
        match r {
            Some(i) => spec_winner(players@) == Some(i as int) && (i as int) < players@.len(),
            None => spec_winner(players@).is_none(),
        },
{
    let mut i: usize = 0;
    while i < players.len()
        invariant
            i <= players@.len(),
            spec_winner(players@) == spec_winner_from(players@, i as int),
        decreases players@.len() - i,
    {
        if players[i].won() {
            return Some(i);
        }
        i = i + 1;
    }
    None
}

/// Reverse-as-skip: with exactly two seated players, a play of a Reverse
/// leaves the current turn exactly where it was.
pub proof fn lemma_reverse_two_players(g: Game, card: Card)
    requires
        g.wf(),
        g.players@.len() == 2,
        card.value == CardValue::Reverse,
    ensures
        turn_after_play(g, card) == g.current_turn as int,
{
}

/// Penalty stacking: starting from no pending penalty, a state reached by
/// playing a PlusTwo and then a WildPlusFour (each play adds that card's
/// penalty, as `play_card` ensures) carries a penalty of exactly six.
pub proof fn lemma_penalty_stacking(g0: Game, g1: Game, g2: Game, c1: Card, c2: Card)
    requires
        g0.plus == 0,
        c1.value == CardValue::PlusTwo,
        c2.value == CardValue::WildPlusFour,
        g1.plus == g0.plus + penalty_of(c1.value),
        g2.plus == g1.plus + penalty_of(c2.value),
    ensures
        g2.plus == 6,
{
}

} // verus!
