use vstd::prelude::*;
use crate::cards::card::Card;
use crate::cards::suit::Suit;
use crate::network::action::Action;
use crate::players::player::Player;

verus! {

/// What everyone may know of one player.
#[derive(Copy, Clone, Debug, PartialEq, Eq, Structural)]
pub struct PlayerState {
    pub score: i16,
    pub bid: Option<u8>,
    pub tricks_taken: u8,
}

/// The trick that is being played.
#[derive(Debug)]
pub struct TrickState {
    /// The cards played so far, in play order.
    pub played_cards: Vec<Card>,
    /// The leading suit that those cards establish.
    pub leading_suit: Option<Suit>,
    /// The player who led the trick.
    pub leading_player: usize,
}

/// The public state of the game, as it is sent to the players.
#[derive(Debug)]
pub struct GameState {
    pub starting_player: usize,
    pub round: u8,
    pub trump_suit: Option<Suit>,
    pub player_count: usize,
    /// One entry for each player, in seating order.
    pub players: Vec<PlayerState>,
    /// The current trick, during trick play only.
    pub trick: Option<TrickState>,
}

/// A message from the server to a player.
#[derive(Debug)]
pub enum Prompt {
    /// The game starts.
    StartGame { state: GameState },
    /// A bid is due. The message has a place for the bid, which holds 0
    /// until the player fills it in.
    Bid { bid: u8, state: GameState },
    /// The choice of the trump suit is due.
    ChooseTrump { state: GameState },
    /// A card is due: one of `playable_cards`, which are the cards of
    /// `hand` that may be played.
    PlayCard { state: GameState, hand: Vec<Card>, playable_cards: Vec<Card> },
    /// The game has ended.
    EndGame { state: GameState },
}

impl Prompt {
    /// The action under which the message is sent.
    pub open spec fn action(self) -> Action {
        match self {
            Prompt::StartGame { .. } => Action::StartGame,
            Prompt::Bid { .. } => Action::Bid,
            Prompt::ChooseTrump { .. } => Action::ChooseTrump,
            Prompt::PlayCard { .. } => Action::PlayCard,
            Prompt::EndGame { .. } => Action::EndGame,
        }
    }

    /// The action under which the message is sent.
    pub fn tag(&self) -> (a: Action)
        ensures
            a == self.action(),
    {
        match self {
            Prompt::StartGame { .. } => Action::StartGame,
            Prompt::Bid { .. } => Action::Bid,
            Prompt::ChooseTrump { .. } => Action::ChooseTrump,
            Prompt::PlayCard { .. } => Action::PlayCard,
            Prompt::EndGame { .. } => Action::EndGame,
        }
    }
}

/// The public part of a player's state.
pub open spec fn public_state(player: Player) -> PlayerState {
    PlayerState { score: player.score, bid: player.bid, tricks_taken: player.tricks_taken }
}

/// The public parts of all players' states, in seating order.
pub open spec fn public_states(players: Seq<Player>) -> Seq<PlayerState> {
    Seq::new(players.len(), |i: int| public_state(players[i]))
}

/// Copies out the public part of each player's state.
pub fn player_states(players: &Vec<Player>) -> (r: Vec<PlayerState>)
    ensures
        r@ == public_states(players@),
{
    let mut states: Vec<PlayerState> = Vec::new();
    let mut i: usize = 0;
    while i < players.len()
        invariant
            i <= players.len(),
            states@ == public_states(players@.take(i as int)),
        decreases players.len() - i,
    {
        let player = &players[i];
        states.push(
            PlayerState { score: player.score, bid: player.bid, tricks_taken: player.tricks_taken },
        );
        assert(states@ =~= public_states(players@.take(i + 1)));
        i += 1;
    }
    assert(players@.take(i as int) =~= players@);
    states
}

/// A copy of a list of cards.
pub fn copy_cards(cards: &Vec<Card>) -> (r: Vec<Card>)
    ensures
        r@ == cards@,
{
    let mut copy: Vec<Card> = Vec::new();
    let mut i: usize = 0;
    while i < cards.len()
        invariant
            i <= cards.len(),
            copy@ == cards@.take(i as int),
        decreases cards.len() - i,
    {
        copy.push(cards[i]);
        assert(copy@ =~= cards@.take(i + 1));
        i += 1;
    }
    assert(cards@.take(i as int) =~= cards@);
    copy
}

} // verus!
