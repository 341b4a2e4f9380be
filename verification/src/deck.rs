//! The draw pile: the full 108-card universe, shuffled, drawn from the
//! front and returned to the back.

use vstd::prelude::*;

use rand::seq::SliceRandom;

use crate::card::{Card, CardColor, CardValue};
use crate::player::Player;

verus! {

/// The 25 cards of one color: one zero, two of each digit one through
/// nine, and two each of Skip, Reverse and PlusTwo.
pub open spec fn color_block(color: CardColor) -> Seq<Card> {
    seq![
        Card { value: CardValue::Num(0), color },
        Card { value: CardValue::Num(1), color },
        Card { value: CardValue::Num(1), color },
        Card { value: CardValue::Num(2), color },
        Card { value: CardValue::Num(2), color },
        Card { value: CardValue::Num(3), color },
        Card { value: CardValue::Num(3), color },
        Card { value: CardValue::Num(4), color },
        Card { value: CardValue::Num(4), color },
        Card { value: CardValue::Num(5), color },
        Card { value: CardValue::Num(5), color },
        Card { value: CardValue::Num(6), color },
        Card { value: CardValue::Num(6), color },
        Card { value: CardValue::Num(7), color },
        Card { value: CardValue::Num(7), color },
        Card { value: CardValue::Num(8), color },
        Card { value: CardValue::Num(8), color },
        Card { value: CardValue::Num(9), color },
        Card { value: CardValue::Num(9), color },
        Card { value: CardValue::Skip, color },
        Card { value: CardValue::Skip, color },
        Card { value: CardValue::Reverse, color },
        Card { value: CardValue::Reverse, color },
        Card { value: CardValue::PlusTwo, color },
        Card { value: CardValue::PlusTwo, color },
    ]
}

/// The eight uncolored cards: four Wild and four WildPlusFour.
pub open spec fn wild_block() -> Seq<Card> {
    seq![
        Card { value: CardValue::Wild, color: CardColor::NoColor },
        Card { value: CardValue::WildPlusFour, color: CardColor::NoColor },
        Card { value: CardValue::Wild, color: CardColor::NoColor },
        Card { value: CardValue::WildPlusFour, color: CardColor::NoColor },
        Card { value: CardValue::Wild, color: CardColor::NoColor },
        Card { value: CardValue::WildPlusFour, color: CardColor::NoColor },
        Card { value: CardValue::Wild, color: CardColor::NoColor },
        Card { value: CardValue::WildPlusFour, color: CardColor::NoColor },
    ]
}

/// The fixed 108-card universe, before shuffling.
pub open spec fn full_universe() -> Seq<Card> {
    color_block(CardColor::Red) + color_block(CardColor::Green) + color_block(CardColor::Blue)
        + color_block(CardColor::Yellow) + wild_block()
}

/// An ordered draw pile, viewed as the sequence of cards from front
/// (next draw) to back (latest return).
pub struct Deck {
    cards: Vec<Card>,
}

impl View for Deck {
    type V = Seq<Card>;

    closed spec fn view(&self) -> Seq<Card> {
        self.cards@
    }
}

fn push_two(cards: &mut Vec<Card>, c: Card)
    ensures
        final(cards)@ == old(cards)@.push(c).push(c),
{
    cards.push(c);
    cards.push(c);
}

fn push_color_block(cards: &mut Vec<Card>, color: CardColor)
    ensures
        final(cards)@ == old(cards)@ + color_block(color),
{
    cards.push(Card { value: CardValue::Num(0), color });
    push_two(cards, Card { value: CardValue::Num(1), color });
    push_two(cards, Card { value: CardValue::Num(2), color });
    push_two(cards, Card { value: CardValue::Num(3), color });
    push_two(cards, Card { value: CardValue::Num(4), color });
    push_two(cards, Card { value: CardValue::Num(5), color });
    push_two(cards, Card { value: CardValue::Num(6), color });
    push_two(cards, Card { value: CardValue::Num(7), color });
    push_two(cards, Card { value: CardValue::Num(8), color });
    push_two(cards, Card { value: CardValue::Num(9), color });
    push_two(cards, Card { value: CardValue::Skip, color });
    push_two(cards, Card { value: CardValue::Reverse, color });
    push_two(cards, Card { value: CardValue::PlusTwo, color });
    assert(cards@ =~= old(cards)@ + color_block(color));
}

impl Deck {
    /// Builds the full 108-card universe and shuffles it.
    pub fn new() -> (d: Deck)
        ensures
            d@.len() == 108,
            d@.to_multiset() == full_universe().to_multiset(),
    {
        let mut cards: Vec<Card> = Vec::new();
        push_color_block(&mut cards, CardColor::Red);
        push_color_block(&mut cards, CardColor::Green);
        push_color_block(&mut cards, CardColor::Blue);
        push_color_block(&mut cards, CardColor::Yellow);
        cards.push(Card::wild());
        cards.push(Card::wild_plus_four());
        cards.push(Card::wild());
        cards.push(Card::wild_plus_four());
        cards.push(Card::wild());
        cards.push(Card::wild_plus_four());
        cards.push(Card::wild());
        cards.push(Card::wild_plus_four());
        assert(cards@ =~= full_universe());
        let mut d = Deck { cards };
        d.shuffle();
        d
    }

    /// Relies on rand's `SliceRandom::shuffle`, driven by `rand::thread_rng`:
    /// a Fisher-Yates pass of in-place swaps, so the slice afterwards holds
    /// exactly the cards it held before, in some order. (`thread_rng` aborts
    /// the process if the OS randomness source fails at its first use, an
    /// environmental failure of the same kind as exhausting memory.)
    #[verifier::external_body]
    pub fn shuffle(&mut self)
        ensures
            final(self)@.to_multiset() == old(self)@.to_multiset(),
            final(self)@.len() == old(self)@.len(),
    {
        self.cards.shuffle(&mut rand::thread_rng());
    }

    /// How many cards wait in the pile.
    pub fn len(&self) -> (n: usize)
        ensures
            n == self@.len(),
    {
        self.cards.len()
    }

    /// Draws the frontmost card into a player's hand; the pile must not
    /// be empty.
    pub fn give_card(&mut self, player: &mut Player)
        requires
            old(self)@.len() > 0,
        ensures
            final(self)@ == old(self)@.remove(0),
            final(player).cards@ == old(player).cards@.push(old(self)@[0]),
            final(player).name == old(player).name,
            final(player).frozen == old(player).frozen,
    {
        let c = self.take_card().unwrap();
        player.add_card(c);
    }

    /// Appends a card to the back of the pile.
    pub fn return_card(&mut self, card: Card)
        ensures
            final(self)@ == old(self)@.push(card),
    {
        self.cards.push(card);
    }

    /// Removes and returns the frontmost card, or `None` on an empty pile:
    /// an empty draw is an error condition, never a panic.
    pub fn take_card(&mut self) -> (r: Option<Card>)
        ensures
            old(self)@.len() > 0 ==> r == Some(old(self)@[0]) && final(self)@ == old(self)@.remove(
                0,
            ),
            old(self)@.len() == 0 ==> r == Option::<Card>::None && final(self)@ == old(self)@,
    {
        if !self.cards.is_empty() {
            Some(self.cards.remove(0))
        } else {
            None
        }
    }
}

} // verus!
