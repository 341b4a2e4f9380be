//! A seated player: a named hand of cards, in draw order.

use vstd::prelude::*;

use crate::card::{spec_cycled_down, spec_cycled_up, Card};

verus! {

/// A player's name is fixed at join time; the hand grows by draws and
/// shrinks by plays. `frozen` is a reserved flag, unused by the rules.
pub struct Player {
    pub cards: Vec<Card>,
    pub name: String,
    pub frozen: bool,
}

impl Player {
    pub fn new(name: String) -> (p: Player)
        ensures
            p.cards@ == Seq::<Card>::empty(),
            p.name == name,
            p.frozen == false,
    {
        Player { cards: Vec::new(), name, frozen: false }
    }

    pub fn card_num(&self) -> (n: usize)
        ensures
            n == self.cards@.len(),
    {
        self.cards.len()
    }

    pub fn add_card(&mut self, card: Card)
        ensures
            final(self).cards@ == old(self).cards@.push(card),
            final(self).name == old(self).name,
            final(self).frozen == old(self).frozen,
    {
        self.cards.push(card);
    }

    /// The player has won once the hand is empty.
    pub fn won(&self) -> (r: bool)
        ensures
            r == (self.cards@.len() == 0),
    {
        self.cards.is_empty()
    }

    /// Removes and returns the card at a hand position; positions past the
    /// hand are rejected by the caller before it reaches here.
    pub fn take_card(&mut self, index: usize) -> (c: Card)
        requires
            index < old(self).cards@.len(),
        ensures
            c == old(self).cards@[index as int],
            final(self).cards@ == old(self).cards@.remove(index as int),
            final(self).name == old(self).name,
            final(self).frozen == old(self).frozen,
    {
        self.cards.remove(index)
    }

    /// Cycles the color of the card at a hand position one step forward.
    pub fn cycle_card_up(&mut self, index: usize)
        requires
            index < old(self).cards@.len(),
        ensures
            final(self).cards@ == old(self).cards@.update(
                index as int,
                spec_cycled_up(old(self).cards@[index as int]),
            ),
            final(self).name == old(self).name,
            final(self).frozen == old(self).frozen,
    {
        let mut c = self.cards.remove(index);
        c.cycle_colors_up();
        self.cards.insert(index, c);
        assert(self.cards@ =~= old(self).cards@.update(
            index as int,
            spec_cycled_up(old(self).cards@[index as int]),
        ));
    }

    /// Cycles the color of the card at a hand position one step backward.
    pub fn cycle_card_down(&mut self, index: usize)
        requires
            index < old(self).cards@.len(),
        ensures
            final(self).cards@ == old(self).cards@.update(
                index as int,
                spec_cycled_down(old(self).cards@[index as int]),
            ),
            final(self).name == old(self).name,
            final(self).frozen == old(self).frozen,
    {
        let mut c = self.cards.remove(index);
        c.cycle_colors_down();
        self.cards.insert(index, c);
        assert(self.cards@ =~= old(self).cards@.update(
            index as int,
            spec_cycled_down(old(self).cards@[index as int]),
        ));
    }
}

} // verus!
