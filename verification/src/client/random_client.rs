use vstd::prelude::*;
use rand::rngs::ThreadRng;
use crate::cards::card::Card;
use crate::cards::suit::Suit;
use crate::random::random_between;
use crate::random::thread_generator;

verus! {

/// A player that bids and plays at random.
pub struct RandomClient {
    rng: ThreadRng,
}

/// Whether `bid` can come of a draw for a round: some number from 0 to
/// the round's, cut to its low eight bits.
pub open spec fn bid_drawn(round: u64, bid: u8) -> bool {
    exists|draw: u64| draw <= round && bid == #[trigger] (draw % 256)
}

impl RandomClient {
    /// Create a new random client
    pub fn new() -> RandomClient {
        RandomClient { rng: thread_generator() }
    }

    /// Generates a random bid between 0 and the round number
    pub fn bid(&mut self, round: u64) -> (bid: u8)
        ensures
            bid_drawn(round, bid),
            round <= u8::MAX ==> bid <= round,
    {
        let draw = random_between(&mut self.rng, 0, round);
        (draw % 256) as u8
    }

    /// Picks a random trump suit
    pub fn choose_trump(&mut self) -> Suit {
        let draw = random_between(&mut self.rng, 0, 3);
        Suit::from_index(draw as usize)
    }

    /// Picks a random card from the playable cards, of which there must
    /// be one.
    pub fn play_card(&mut self, playable_cards: &Vec<Card>) -> (card: Card)
        requires
            playable_cards@.len() > 0,
        ensures
            playable_cards@.contains(card),
    {
        let last = playable_cards.len() - 1;
        let draw = random_between(&mut self.rng, 0, last as u64);
        playable_cards[draw as usize]
    }
}

} // verus!
