//! A verified rules engine for an Uno-style card game: the card model,
//! a shuffled draw pile, players' hands, the turn/penalty state machine,
//! and the request/response protocol that a session server applies to it.

pub mod card;
pub mod deck;
pub mod game;
pub mod json;
pub mod player;
pub mod protocol;
