//! Card model: suits, ranks, normal and special cards, and the deck.

pub mod suit;
pub mod rank;
pub mod special_card;
pub mod normal_card;
pub mod card;
pub mod deck;
