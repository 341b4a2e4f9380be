//! The card model: values, colors, and color cycling for wild cards.

use vstd::prelude::*;

verus! {

/// A card's color. Only wild cards may be uncolored (`CardColor::NoColor`);
/// cycling assigns them a play color before they can match anything.
#[derive(Clone, Copy, Debug, PartialEq, Eq, Structural)]
pub enum CardColor {
    Red,
    Green,
    Blue,
    Yellow,
    NoColor,
}

/// A card's face value: a digit, an action, or a wild.
#[derive(Clone, Copy, Debug, PartialEq, Eq, Structural)]
pub enum CardValue {
    Num(u8),
    Reverse,
    PlusTwo,
    Skip,
    Wild,
    WildPlusFour,
}

/// One card of the 108-card universe.
#[derive(Clone, Copy, Debug, PartialEq, Eq, Structural)]
pub struct Card {
    pub value: CardValue,
    pub color: CardColor,
}

/// True of the two card values whose cards start out uncolored.
pub open spec fn is_wild_value(v: CardValue) -> bool {
    v == CardValue::Wild || v == CardValue::WildPlusFour
}

/// The color one step forward in the Red, Green, Blue, Yellow cycle;
/// an unassigned color steps to Red first.
pub open spec fn next_color(c: CardColor) -> CardColor {
    match c {
        CardColor::NoColor => CardColor::Red,
        CardColor::Red => CardColor::Green,
        CardColor::Green => CardColor::Blue,
        CardColor::Blue => CardColor::Yellow,
        CardColor::Yellow => CardColor::Red,
    }
}

/// The color one step backward in the cycle; an unassigned color
/// steps to Red first, in either direction.
pub open spec fn prev_color(c: CardColor) -> CardColor {
    match c {
        CardColor::NoColor => CardColor::Red,
        CardColor::Red => CardColor::Yellow,
        CardColor::Green => CardColor::Red,
        CardColor::Blue => CardColor::Green,
        CardColor::Yellow => CardColor::Blue,
    }
}

/// What `cycle_colors_up` leaves behind: wild cards advance their color,
/// every other card is untouched.
pub open spec fn spec_cycled_up(c: Card) -> Card {
    if is_wild_value(c.value) {
        Card { value: c.value, color: next_color(c.color) }
    } else {
        c
    }
}

/// What `cycle_colors_down` leaves behind.
pub open spec fn spec_cycled_down(c: Card) -> Card {
    if is_wild_value(c.value) {
        Card { value: c.value, color: prev_color(c.color) }
    } else {
        c
    }
}

impl Card {
    /// A card is well formed when only a wild value can lack a color.
    pub open spec fn wf(self) -> bool {
        self.color == CardColor::NoColor ==> is_wild_value(self.value)
    }

    pub fn new(value: CardValue, color: CardColor) -> (c: Card)
        ensures
            c == (Card { value, color }),
    {
        Card { value, color }
    }

    /// Steps a wild card's color forward through the four colors, wrapping;
    /// a no-op on any card that is not wild.
    pub fn cycle_colors_up(&mut self)
        ensures
            *final(self) == spec_cycled_up(*old(self)),
    {
        if !(self.value == CardValue::Wild || self.value == CardValue::WildPlusFour) {
            return;
        }
        self.color = match self.color {
            CardColor::NoColor => CardColor::Red,
            CardColor::Red => CardColor::Green,
            CardColor::Green => CardColor::Blue,
            CardColor::Blue => CardColor::Yellow,
            CardColor::Yellow => CardColor::Red,
        };
    }

    /// Steps a wild card's color backward through the four colors, wrapping;
    /// a no-op on any card that is not wild.
    pub fn cycle_colors_down(&mut self)
        ensures
            *final(self) == spec_cycled_down(*old(self)),
    {
        if !(self.value == CardValue::Wild || self.value == CardValue::WildPlusFour) {
            return;
        }
        self.color = match self.color {
            CardColor::NoColor => CardColor::Red,
            CardColor::Red => CardColor::Yellow,
            CardColor::Green => CardColor::Red,
            CardColor::Blue => CardColor::Green,
            CardColor::Yellow => CardColor::Blue,
        };
    }

    pub fn skip(color: CardColor) -> (c: Card)
        ensures
            c == (Card { value: CardValue::Skip, color }),
    {
        Card { value: CardValue::Skip, color }
    }

    pub fn reverse(color: CardColor) -> (c: Card)
        ensures
            c == (Card { value: CardValue::Reverse, color }),
    {
        Card { value: CardValue::Reverse, color }
    }

    pub fn plus_two(color: CardColor) -> (c: Card)
        ensures
            c == (Card { value: CardValue::PlusTwo, color }),
    {
        Card { value: CardValue::PlusTwo, color }
    }

    pub fn wild() -> (c: Card)
        ensures
            c == (Card { value: CardValue::Wild, color: CardColor::NoColor }),
    {
        Card { value: CardValue::Wild, color: CardColor::NoColor }
    }

    pub fn wild_plus_four() -> (c: Card)
        ensures
            c == (Card { value: CardValue::WildPlusFour, color: CardColor::NoColor }),
    {
        Card { value: CardValue::WildPlusFour, color: CardColor::NoColor }
    }
}

/// A colored wild card returns to its color after four upward cycles:
/// the color cycle has length four once a color is assigned.
pub proof fn lemma_wild_color_cycle(c: Card)
    requires
        c.color != CardColor::NoColor,
    ensures
        spec_cycled_up(spec_cycled_up(spec_cycled_up(spec_cycled_up(c)))) == c,
{
}

/// A freshly built wild card is uncolored, and its first cycle in either
/// direction lands on Red.
pub proof fn lemma_first_cycle_is_red(c: Card)
    requires
        is_wild_value(c.value),
        c.color == CardColor::NoColor,
    ensures
        spec_cycled_up(c).color == CardColor::Red,
        spec_cycled_down(c).color == CardColor::Red,
{
}

} // verus!
