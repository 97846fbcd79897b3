use vstd::prelude::*;
use crate::cards::card::Card;
use crate::cards::deck::full_count;
use crate::cards::deck::Deck;
use crate::cards::deck::DeckError;
use crate::cards::suit::Suit;
use crate::game::state::copy_cards;
use crate::game::state::player_states;
use crate::game::state::public_states;
use crate::game::state::GameState;
use crate::game::state::Prompt;
use crate::game::state::TrickState;
use crate::game::trick::leading_suit;
use crate::game::trick::leading_suit_of;
use crate::game::trick::trick_winner_of;
use crate::game::wizard::dealt;
use crate::game::wizard::deck_serves_every_round;
use crate::game::wizard::hand_of;
use crate::game::wizard::seats_round_the_table;
use crate::game::wizard::turns_round_the_table;
use crate::game::wizard::rounds_divide_evenly;
use crate::game::wizard::scored;
use crate::game::wizard::stage_after_cut;
use crate::game::wizard::top_card;
use crate::game::wizard::trump_of;
use crate::game::wizard::Stage;
use crate::game::wizard::Step;
use crate::game::wizard::WizardGame;
use crate::players::player::first_place;
use crate::players::player::playable;
use crate::players::player::round_score;
use crate::players::player::Player;

verus! {

/// The players after the player at `seat` has bid `amount`: nothing else
/// has changed.
pub open spec fn bid_placed(before: Seq<Player>, after: Seq<Player>, seat: int, amount: u8) -> bool {
    &&& after.len() == before.len()
    &&& forall|i: int|
        0 <= i < after.len() ==> {
            &&& (#[trigger] after[i]).score == before[i].score
            &&& after[i].tricks_taken == before[i].tricks_taken
            &&& after[i].cards == before[i].cards
            &&& after[i].bid == if i == seat {
                Some(amount)
            } else {
                before[i].bid
            }
        }
}

/// The players after the player at `seat` has played `card` and, where a
/// trick was completed, its winner has been credited: the first copy of
/// the card has left that player's hand, and nothing else has changed.
pub open spec fn card_played(
    before: Seq<Player>,
    after: Seq<Player>,
    seat: int,
    card: Card,
    winner: Option<usize>,
) -> bool {
    &&& after.len() == before.len()
    &&& forall|i: int|
        0 <= i < after.len() ==> {
            &&& (#[trigger] after[i]).score == before[i].score
            &&& after[i].bid == before[i].bid
            &&& after[i].tricks_taken == before[i].tricks_taken + (if winner == Some(i as usize) {
                1int
            } else {
                0int
            })
            &&& i != seat ==> after[i].cards@ == before[i].cards@
        }
    &&& exists|k: int|
        {
            &&& #[trigger] first_place(before[seat].cards@, card, k)
            &&& after[seat].cards@ == before[seat].cards@.remove(k)
        }
}

/// The players after a round was scored, whatever cards they hold: each
/// score has moved by what the round was worth, bids and tricks are reset.
pub open spec fn scores_updated(before: Seq<Player>, after: Seq<Player>) -> bool {
    &&& after.len() == before.len()
    &&& forall|i: int|
        0 <= i < after.len() ==> {
            &&& (#[trigger] after[i]).score == before[i].score + round_score(
                before[i].bid->0 as int,
                before[i].tricks_taken as int,
            )
            &&& after[i].bid is None
            &&& after[i].tricks_taken == 0
        }
}

/// The players with scores, bids and tricks as before, whatever cards
/// they hold.
pub open spec fn scores_kept(before: Seq<Player>, after: Seq<Player>) -> bool {
    &&& after.len() == before.len()
    &&& forall|i: int|
        0 <= i < after.len() ==> {
            &&& (#[trigger] after[i]).score == before[i].score
            &&& after[i].bid == before[i].bid
            &&& after[i].tricks_taken == before[i].tricks_taken
        }
}

/// Whether a game is as a round leaves it that was dealt from `deck` to
/// the players `before`: the deck is some order of the 60 cards, every
/// player has a hand off its top, and the card under the hands was cut for
/// the trump suit.
pub open spec fn round_dealt_from(before: Seq<Player>, game: WizardGame, deck: Seq<Card>) -> bool {
    let hands = before.len() * game.round;
    let rest = deck.subrange(0, deck.len() - hands);
    &&& deck.len() == 60
    &&& forall|c: Card| #[trigger] deck.to_multiset().count(c) == full_count(c)
    &&& hands <= 60
    &&& dealt(before, game.players@, deck, game.round as int, before.len() as int)
    &&& game.trump_suit == trump_of(top_card(rest))
    &&& game.stage == stage_after_cut(top_card(rest))
}

/// Whether `state` is the public state of `game`: the round, the trump
/// suit and the players' public parts, and during trick play the current
/// trick with the cards played, their leading suit and who led.
pub open spec fn state_of(game: WizardGame, state: GameState) -> bool {
    &&& state.starting_player == game.starting_player
    &&& state.round == game.round
    &&& state.trump_suit == game.trump_suit
    &&& state.player_count == game.players@.len()
    &&& state.players@ == public_states(game.players@)
    &&& match state.trick {
        Some(trick) => {
            &&& game.stage == Stage::Playing
            &&& trick.played_cards@ == game.played_cards@
            &&& trick.leading_suit == leading_suit_of(game.played_cards@)
            &&& trick.leading_player == game.leading_player
        },
        None => game.stage != Stage::Playing,
    }
}

/// Every player holds `size` cards.
pub open spec fn hands_of_size(players: Seq<Player>, size: int) -> bool {
    forall|i: int| 0 <= i < players.len() ==> (#[trigger] players[i]).cards@.len() == size
}

impl WizardGame {
    /// Whether carrying the game on deals a round: one is due now, or the
    /// round that is to be scored is not the last.
    pub open spec fn deal_is_due(self) -> bool {
        ||| self.stage == Stage::Dealing
        ||| (self.stage == Stage::Scoring && self.all_can_score() && self.round
            < self.spec_num_rounds())
    }

    /// Starts the next round with the given deck: every player gets as
    /// many cards as the round's number, then the deck is cut for trump.
    /// If the deck cannot supply the hands the game is finished.
    pub fn perform_round(&mut self, deck: Deck) -> (r: Result<(), DeckError>)
        requires
            old(self).wf(),
            old(self).stage == Stage::Dealing,
        ensures
            final(self).wf(),
            final(self).round == old(self).round + 1,
            final(self).starting_player == old(self).starting_player,
            final(self).leading_player == old(self).starting_player,
            final(self).bids_made == 0,
            final(self).tricks_played == 0,
            final(self).played_cards@.len() == 0,
            match r {
                Ok(_) => {
                    let hands = old(self).player_count() * final(self).round;
                    let rest = deck@.subrange(0, deck@.len() - hands);
                    &&& hands <= deck@.len()
                    &&& dealt(
                        old(self).players@,
                        final(self).players@,
                        deck@,
                        final(self).round as int,
                        old(self).player_count(),
                    )
                    &&& final(self).trump_suit == trump_of(top_card(rest))
                    &&& final(self).stage == stage_after_cut(top_card(rest))
                },
                Err(e) => {
                    &&& deck@.len() < old(self).player_count() * final(self).round
                    &&& final(self).stage == Stage::Finished
                    &&& final(self).trump_suit == old(self).trump_suit
                    &&& final(self).players@.len() == old(self).players@.len()
                    &&& e.requested == final(self).round
                    &&& e.remaining < e.requested
                    &&& exists|served: int|
                        {
                            &&& 0 <= served < old(self).player_count()
                            &&& #[trigger] dealt(
                                old(self).players@,
                                final(self).players@,
                                deck@,
                                final(self).round as int,
                                served,
                            )
                            &&& e.remaining == deck@.len() - served * final(self).round
                        }
                },
            },
    {
        proof {
            rounds_divide_evenly(self.player_count());
        }
        let ghost full = deck@;
        let mut stock = deck;
        self.round += 1;
        self.bids_made = 0;
        self.tricks_played = 0;
        self.leading_player = self.starting_player;
        self.played_cards.clear();
        let ghost before = *self;
        match self.deal(&mut stock) {
            Ok(_) => {
                let ghost rest = stock@;
                self.reveal_trump(&mut stock);
                proof {
                    let hands = before.player_count() * before.round;
                    assert(rest == full.subrange(0, full.len() - hands));
                    assert(self.trump_suit == trump_of(top_card(rest)));
                    assert(self.stage == stage_after_cut(top_card(rest)));
                    let n = self.player_count();
                    let round = self.round as int;
                    assert forall|i: int| 0 <= i < n implies #[trigger] self.seat_ok(i) by {
                        assert(self.players@[i].cards@ == hand_of(full, round, i));
                        assert((i + 1) * round == i * round + round) by (nonlinear_arith);
                        assert((i + 1) * round <= n * round) by (nonlinear_arith)
                            requires
                                i + 1 <= n,
                                round >= 0,
                        ;
                        assert(i * round >= 0) by (nonlinear_arith)
                            requires
                                i >= 0,
                                round >= 0,
                        ;
                        turns_round_the_table(n, self.starting_player as int, i);
                    }
                }
                Ok(())
            },
            Err(e) => {
                self.stage = Stage::Finished;
                proof {
                    let n = before.player_count();
                    let round = before.round as int;
                    let k = choose|k: int|
                        {
                            &&& 0 <= k < n
                            &&& k * round <= full.len() < (k + 1) * round
                            &&& #[trigger] dealt(before.players@, self.players@, full, round, k)
                            &&& e.remaining == full.len() - k * round
                            &&& e.requested == round
                        };
                    assert((k + 1) * round <= n * round) by (nonlinear_arith)
                        requires
                            k + 1 <= n,
                            round >= 0,
                    ;
                    assert(k * round >= 0) by (nonlinear_arith)
                        requires
                            k >= 0,
                            round >= 0,
                    ;
                    assert((k + 1) * round == k * round + round) by (nonlinear_arith);
                    assert(dealt(old(self).players@, self.players@, deck@, self.round as int, k));
                }
                Err(e)
            },
        }
    }

    /// Takes the dealer's choice of trump suit after a Wizard was cut.
    pub fn choose_trump(&mut self, suit: Suit)
        requires
            old(self).wf(),
            old(self).stage == Stage::ChoosingTrump,
        ensures
            final(self).wf(),
            *final(self) == (WizardGame {
                trump_suit: Some(suit),
                stage: Stage::Bidding,
                ..*old(self)
            }),
    {
        self.trump_suit = Some(suit);
        self.stage = Stage::Bidding;
        proof {
            let n = self.player_count();
            assert forall|i: int| 0 <= i < n implies #[trigger] self.seat_ok(i) by {
                assert(old(self).seat_ok(i));
                turns_round_the_table(n, self.starting_player as int, i);
            }
        }
    }

    /// Takes the bid of the player whose bid is due. The amount is not
    /// held against the size of the round. After the last bid trick play
    /// starts.
    pub fn bid(&mut self, amount: u8)
        requires
            old(self).wf(),
            old(self).stage == Stage::Bidding,
        ensures
            final(self).wf(),
            bid_placed(old(self).players@, final(self).players@, old(self).bidder(), amount),
            *final(self) == (WizardGame {
                players: final(self).players,
                bids_made: (old(self).bids_made + 1) as usize,
                stage: if old(self).bids_made + 1 == old(self).player_count() {
                    Stage::Playing
                } else {
                    Stage::Bidding
                },
                ..*old(self)
            }),
    {
        let seat = self.bidding_player();
        proof {
            seats_round_the_table(
                self.player_count(),
                self.starting_player as int,
                self.bids_made as int,
            );
        }
        self.players[seat].bid(amount);
        self.bids_made += 1;
        if self.bids_made == self.players.len() {
            self.stage = Stage::Playing;
        }
        proof {
            let n = self.player_count();
            assert forall|i: int| 0 <= i < n implies #[trigger] self.seat_ok(i) by {
                assert(old(self).seat_ok(i));
                turns_round_the_table(n, self.starting_player as int, i);
                turns_round_the_table(n, self.leading_player as int, i);
            }
        }
    }

    /// Takes the card of the player whose card is due; the card must be in
    /// that player's hand. Once every player has played, the trick goes to
    /// its winner, who is returned and leads the next trick; after the
    /// last trick of the round scoring is next.
    pub fn play_card(&mut self, card: Card) -> (winner: Option<usize>)
        requires
            old(self).wf(),
            old(self).stage == Stage::Playing,
            old(self).players@[old(self).mover()].cards@.contains(card),
        ensures
            final(self).wf(),
            card_played(old(self).players@, final(self).players@, old(self).mover(), card, winner),
            final(self).starting_player == old(self).starting_player,
            final(self).round == old(self).round,
            final(self).trump_suit == old(self).trump_suit,
            final(self).bids_made == old(self).bids_made,
            old(self).played_cards@.len() + 1 < old(self).player_count() ==> {
                &&& winner is None
                &&& final(self).played_cards@ == old(self).played_cards@.push(card)
                &&& final(self).leading_player == old(self).leading_player
                &&& final(self).tricks_played == old(self).tricks_played
                &&& final(self).stage == Stage::Playing
            },
            old(self).played_cards@.len() + 1 == old(self).player_count() ==> {
                &&& winner == Some(
                    trick_winner_of(
                        old(self).played_cards@.push(card),
                        old(self).leading_player as int,
                        old(self).trump_suit,
                        old(self).player_count(),
                    ) as usize,
                )
                &&& final(self).played_cards@.len() == 0
                &&& final(self).leading_player == winner->0
                &&& final(self).tricks_played == old(self).tricks_played + 1
                &&& final(self).stage == if old(self).tricks_played + 1 == old(self).round {
                    Stage::Scoring
                } else {
                    Stage::Playing
                }
            },
    {
        let seat = self.playing_player();
        let ghost n = self.player_count();
        proof {
            seats_round_the_table(n, self.leading_player as int, self.played_cards@.len() as int);
            assert(old(self).seat_ok(seat as int));
        }
        let played = self.players[seat].play_card(card);
        self.played_cards.push(played);
        if self.played_cards.len() < self.players.len() {
            proof {
                assert forall|i: int| 0 <= i < n implies #[trigger] self.seat_ok(i) by {
                    assert(old(self).seat_ok(i));
                    turns_round_the_table(n, self.leading_player as int, i);
                }
            }
            return None;
        }
        let winning_player = self.trick_winner(&self.played_cards, self.leading_player);
        let ghost played_out = *self;
        proof {
            assert forall|i: int| 0 <= i < n implies (#[trigger] self.players@[i]).cards@.len()
                == self.round - self.tricks_played - 1 && self.players@[i].bid is Some by {
                assert(old(self).seat_ok(i));
                turns_round_the_table(n, self.leading_player as int, i);
            }
        }
        self.players[winning_player].won_trick();
        self.leading_player = winning_player;
        self.tricks_played += 1;
        self.played_cards.clear();
        if self.tricks_played == self.round {
            self.stage = Stage::Scoring;
        }
        proof {
            assert forall|i: int| 0 <= i < n implies #[trigger] self.seat_ok(i) by {
                assert(played_out.players@[i].cards@.len() == self.round - self.tricks_played);
                turns_round_the_table(n, self.leading_player as int, i);
            }
        }
        Some(winning_player)
    }

    /// The cards that the player whose card is due may play on the
    /// current trick.
    pub fn playable_cards(&self) -> (r: Vec<Card>)
        requires
            self.wf(),
            self.stage == Stage::Playing,
        ensures
            r@ == playable(
                self.players@[self.mover()].cards@,
                leading_suit_of(self.played_cards@),
            ),
    {
        let seat = self.playing_player();
        self.players[seat].playable_cards(leading_suit(&self.played_cards))
    }

    /// Whether every player can be scored.
    pub fn round_complete(&self) -> (b: bool)
        ensures
            b == self.all_can_score(),
    {
        let mut i: usize = 0;
        while i < self.players.len()
            invariant
                i <= self.players@.len(),
                forall|j: int| 0 <= j < i ==> (#[trigger] self.players@[j]).can_score(),
            decreases self.players@.len() - i,
        {
            if !self.players[i].ready_to_score() {
                return false;
            }
            i += 1;
        }
        true
    }

    /// Scores the round for every player. After the last round the game
    /// is finished, otherwise the next round is to be dealt.
    pub fn update_player_scores(&mut self)
        requires
            old(self).wf(),
            old(self).stage == Stage::Scoring,
            old(self).all_can_score(),
        ensures
            final(self).wf(),
            scored(old(self).players@, final(self).players@),
            *final(self) == (WizardGame {
                players: final(self).players,
                tricks_played: 0,
                stage: if old(self).round == old(self).spec_num_rounds() {
                    Stage::Finished
                } else {
                    Stage::Dealing
                },
                ..*old(self)
            }),
    {
        let mut i: usize = 0;
        while i < self.players.len()
            invariant
                i <= self.players@.len(),
                self.players@.len() == old(self).players@.len(),
                *self == (WizardGame { players: self.players, ..*old(self) }),
                old(self).all_can_score(),
                forall|j: int|
                    0 <= j < i ==> {
                        &&& (#[trigger] self.players@[j]).score == old(self).players@[j].score
                            + round_score(
                            old(self).players@[j].bid->0 as int,
                            old(self).players@[j].tricks_taken as int,
                        )
                        &&& self.players@[j].bid is None
                        &&& self.players@[j].tricks_taken == 0
                        &&& self.players@[j].cards == old(self).players@[j].cards
                    },
                forall|j: int|
                    i <= j < self.players@.len() ==> self.players@[j] == old(self).players@[j],
            decreases self.players@.len() - i,
        {
            assert(old(self).players@[i as int].can_score());
            self.players[i].update_score();
            i += 1;
        }
        proof {
            rounds_divide_evenly(self.player_count());
        }
        self.tricks_played = 0;
        if self.round as usize == self.num_rounds() {
            self.stage = Stage::Finished;
        } else {
            self.stage = Stage::Dealing;
        }
    }

    /// Carries the game on as far as it goes without a player's answer:
    /// scores a round that is played out, deals the next round from a new
    /// shuffled deck, and says whose answer is due or that the game is
    /// over. Which cards the players get, and which trump, depends on the
    /// shuffle.
    pub fn play_game(&mut self) -> (step: Step)
        requires
            old(self).wf(),
        ensures
            final(self).wf(),
            final(self).players@.len() == old(self).players@.len(),
            final(self).starting_player == old(self).starting_player,
            match step {
                Step::ChooseTrump(p) => final(self).stage == Stage::ChoosingTrump
                    && p == final(self).dealer(),
                Step::Bid(p) => final(self).stage == Stage::Bidding && p == final(self).bidder(),
                Step::PlayCard(p) => final(self).stage == Stage::Playing
                    && p == final(self).mover(),
                Step::GameOver => final(self).stage == Stage::Finished,
                Step::CannotScore => {
                    &&& old(self).stage == Stage::Scoring
                    &&& !old(self).all_can_score()
                    &&& *final(self) == *old(self)
                },
            },
            old(self).stage != Stage::Scoring && old(self).stage != Stage::Dealing ==> *final(self)
                == *old(self),
            old(self).stage == Stage::Scoring && old(self).all_can_score() ==> scores_updated(
                old(self).players@,
                final(self).players@,
            ),
            old(self).stage == Stage::Dealing ==> scores_kept(
                old(self).players@,
                final(self).players@,
            ),
            final(self).round == if old(self).deal_is_due() {
                old(self).round + 1
            } else {
                old(self).round as int
            },
            old(self).deal_is_due() ==> {
                &&& final(self).bids_made == 0
                &&& final(self).tricks_played == 0
                &&& final(self).leading_player == final(self).starting_player
                &&& hands_of_size(final(self).players@, final(self).round as int)
                &&& final(self).stage == Stage::Bidding || (final(self).stage
                    == Stage::ChoosingTrump && final(self).trump_suit is None)
            },
            old(self).stage == Stage::Dealing ==> exists|deck: Seq<Card>| #[trigger]
                round_dealt_from(old(self).players@, *final(self), deck),
            old(self).stage == Stage::Scoring && old(self).deal_is_due() ==> exists|
                hands: Seq<Player>,
                deck: Seq<Card>,
            |
                {
                    &&& scored(old(self).players@, hands)
                    &&& #[trigger] round_dealt_from(hands, *final(self), deck)
                },
            old(self).stage == Stage::Scoring && !old(self).all_can_score() ==> step
                == Step::CannotScore,
            old(self).stage == Stage::Scoring && old(self).all_can_score() && old(self).round
                == old(self).spec_num_rounds() ==> {
                &&& scored(old(self).players@, final(self).players@)
                &&& *final(self) == (WizardGame {
                    players: final(self).players,
                    tricks_played: 0,
                    stage: Stage::Finished,
                    ..*old(self)
                })
            },
    {
        if self.stage == Stage::Scoring {
            if !self.round_complete() {
                return Step::CannotScore;
            }
            self.update_player_scores();
        }
        if self.stage == Stage::Dealing {
            let deck = Deck::new();
            let ghost before = self.players@;
            let ghost shuffled = deck@;
            proof {
                deck_serves_every_round(self.player_count(), self.round + 1);
            }
            let r = self.perform_round(deck);
            assert(r is Ok);
            assert(round_dealt_from(before, *self, shuffled));
            proof {
                let hands = self.players@;
                assert forall|i: int| 0 <= i < hands.len() implies (#[trigger] hands[i]).cards@.len()
                    == self.round by {
                    assert(self.seat_ok(i));
                }
            }
        }
        match self.stage {
            Stage::ChoosingTrump => Step::ChooseTrump(self.dealing_player()),
            Stage::Bidding => Step::Bid(self.bidding_player()),
            Stage::Playing => Step::PlayCard(self.playing_player()),
            _ => Step::GameOver,
        }
    }

    /// The public state of the game. During trick play it holds the
    /// current trick: the cards played, their leading suit and who led.
    pub fn game_state(&self) -> (state: GameState)
        ensures
            state_of(*self, state),
    {
        let trick = if self.stage == Stage::Playing {
            Some(
                TrickState {
                    played_cards: copy_cards(&self.played_cards),
                    leading_suit: leading_suit(&self.played_cards),
                    leading_player: self.leading_player,
                },
            )
        } else {
            None
        };
        GameState {
            starting_player: self.starting_player,
            round: self.round,
            trump_suit: self.trump_suit,
            player_count: self.players.len(),
            players: player_states(&self.players),
            trick,
        }
    }

    /// The message that tells the players that the game starts.
    pub fn start_game(&self) -> (prompt: Prompt)
        ensures
            match prompt {
                Prompt::StartGame { state } => state_of(*self, state),
                _ => false,
            },
    {
        Prompt::StartGame { state: self.game_state() }
    }

    /// The message that tells the players that the game has ended.
    pub fn end_game(&self) -> (prompt: Prompt)
        ensures
            match prompt {
                Prompt::EndGame { state } => state_of(*self, state),
                _ => false,
            },
    {
        Prompt::EndGame { state: self.game_state() }
    }

    /// The message that asks the player whose answer is due: for the
    /// trump suit, for a bid, or for a card, then with the player's hand
    /// and the cards of it that may be played. In the other stages no
    /// answer is due.
    pub fn prompt(&self) -> (prompt: Option<Prompt>)
        requires
            self.wf(),
        ensures
            match prompt {
                Some(Prompt::ChooseTrump { state }) => {
                    &&& self.stage == Stage::ChoosingTrump
                    &&& state_of(*self, state)
                },
                Some(Prompt::Bid { bid, state }) => {
                    &&& self.stage == Stage::Bidding
                    &&& bid == 0
                    &&& state_of(*self, state)
                },
                Some(Prompt::PlayCard { state, hand, playable_cards }) => {
                    &&& self.stage == Stage::Playing
                    &&& state_of(*self, state)
                    &&& hand@ == self.players@[self.mover()].cards@
                    &&& playable_cards@ == playable(hand@, leading_suit_of(self.played_cards@))
                },
                Some(_) => false,
                None => {
                    &&& self.stage != Stage::ChoosingTrump
                    &&& self.stage != Stage::Bidding
                    &&& self.stage != Stage::Playing
                },
            },
    {
        match self.stage {
            Stage::ChoosingTrump => Some(Prompt::ChooseTrump { state: self.game_state() }),
            Stage::Bidding => Some(Prompt::Bid { bid: 0, state: self.game_state() }),
            Stage::Playing => {
                let seat = self.playing_player();
                Some(
                    Prompt::PlayCard {
                        state: self.game_state(),
                        hand: copy_cards(&self.players[seat].cards),
                        playable_cards: self.playable_cards(),
                    },
                )
            },
            _ => None,
        }
    }
}

} // verus!
