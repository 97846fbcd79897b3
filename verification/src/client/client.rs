use vstd::prelude::*;
use serde_json::Value;
use crate::cards::card::Card;
use crate::cards::suit::Suit;
use crate::network::action::Action;

verus! {

/// A player's answer to a prompt.
#[derive(Copy, Clone, Debug, PartialEq, Eq, Structural)]
pub enum Reply {
    /// The bid for the round, sent as `bid`.
    Bid(u8),
    /// The trump suit, sent as `trump`.
    ChooseTrump(Suit),
    /// The card to play, sent as `played_card`.
    PlayCard(Card),
}

impl Reply {
    /// The action under which the answer is sent.
    pub open spec fn action(self) -> Action {
        match self {
            Reply::Bid(_) => Action::Bid,
            Reply::ChooseTrump(_) => Action::ChooseTrump,
            Reply::PlayCard(_) => Action::PlayCard,
        }
    }

    /// The action under which the answer is sent.
    pub fn tag(&self) -> (a: Action)
        ensures
            a == self.action(),
    {
        match self {
            Reply::Bid(_) => Action::Bid,
            Reply::ChooseTrump(_) => Action::ChooseTrump,
            Reply::PlayCard(_) => Action::PlayCard,
        }
    }
}

/// A strategy for playing the game: it decides on a bid, a trump suit and
/// a card, each from the prompt that the server sent.
pub trait Client: Sized {
    /// Create a client
    fn new() -> Self;

    /// Bid for this hand
    fn bid(&mut self, json: &Value) -> u8;

    /// Picks a trump suit
    fn choose_trump(&mut self, json: &Value) -> Suit;

    /// Pick a card from "playable_cards"
    fn play_card(&mut self, json: &Value) -> Card;
}

/// Answers a message from the server for a strategy: a prompt is put to
/// the strategy and answered under the prompt's own action; any other
/// message gets no answer.
pub fn respond<C: Client>(client: &mut C, action: Action, json: &Value) -> (r: Option<Reply>)
    ensures
        match r {
            Some(reply) => action.spec_answer() == Some(reply.action()),
            None => action.spec_answer() is None,
        },
{
    match action {
        Action::Bid => Some(Reply::Bid(client.bid(json))),
        Action::ChooseTrump => Some(Reply::ChooseTrump(client.choose_trump(json))),
        Action::PlayCard => Some(Reply::PlayCard(client.play_card(json))),
        _ => None,
    }
}

} // verus!
