use vstd::prelude::*;
use crate::cards::card::Card;
use crate::cards::deck::Deck;
use crate::cards::deck::DeckError;
use crate::cards::special_card::SpecialCard;
use crate::cards::suit::Suit;
use crate::game::trick::leading_suit;
use crate::game::trick::trick_winner_of;
use crate::game::trick::winning_card;
use crate::players::player::round_score;
use crate::players::player::Player;

verus! {

/// Where a game stands: what has to happen next.
#[derive(Copy, Clone, Debug, PartialEq, Eq, Structural)]
pub enum Stage {
    /// The next round has to be dealt.
    Dealing,
    /// A Wizard was cut: the dealer has to name the trump suit.
    ChoosingTrump,
    /// Players are bidding in turn.
    Bidding,
    /// Tricks are being played.
    Playing,
    /// All tricks of the round are played: the round has to be scored.
    Scoring,
    /// The last round is scored, or the game has failed.
    Finished,
}

/// Why a game cannot be set up.
#[derive(Copy, Clone, Debug, PartialEq, Eq, Structural)]
pub enum GameError {
    /// Fewer than three players.
    NotEnoughPlayers { requested: usize },
    /// More than six players.
    TooManyPlayers { requested: usize },
    /// The players do not each have one connection to read and one to write.
    ConnectionMismatch { players: usize, listeners: usize, writers: usize },
}

/// What the driver of a game has to do next.
#[derive(Copy, Clone, Debug, PartialEq, Eq, Structural)]
pub enum Step {
    /// Ask this player for the trump suit, then call `choose_trump`.
    ChooseTrump(usize),
    /// Ask this player for a bid, then call `bid`.
    Bid(usize),
    /// Ask this player for a card, then call `play_card`.
    PlayCard(usize),
    /// The game is over: tell the players.
    GameOver,
    /// The round that was played cannot be scored: a player's score would
    /// leave its range. The game stays as it is.
    CannotScore,
}

/// One game of Wizard.
#[derive(Debug)]
pub struct WizardGame {
    pub players: Vec<Player>,
    pub starting_player: usize,
    /// The current round, 0 before the first; also the size of a hand.
    pub round: u8,
    pub trump_suit: Option<Suit>,
    pub stage: Stage,
    /// Players that have bid in this round.
    pub bids_made: usize,
    /// Tricks completed in this round.
    pub tricks_played: u8,
    /// The player who leads the current trick.
    pub leading_player: usize,
    /// The cards played in the current trick, in play order.
    pub played_cards: Vec<Card>,
}

/// The hand of the player at seat `seat` when `round` cards each are dealt
/// off the top of `deck`, seat by seat.
pub open spec fn hand_of(deck: Seq<Card>, round: int, seat: int) -> Seq<Card> {
    deck.subrange(deck.len() - (seat + 1) * round, deck.len() - seat * round)
}

/// The players after the first `served` of them got their hands of
/// `round` cards off `deck`: nothing else has changed.
pub open spec fn dealt(
    before: Seq<Player>,
    after: Seq<Player>,
    deck: Seq<Card>,
    round: int,
    served: int,
) -> bool {
    &&& after.len() == before.len()
    &&& forall|i: int|
        0 <= i < after.len() ==> {
            &&& (#[trigger] after[i]).score == before[i].score
            &&& after[i].bid == before[i].bid
            &&& after[i].tricks_taken == before[i].tricks_taken
            &&& after[i].cards@ == if i < served {
                hand_of(deck, round, i)
            } else {
                before[i].cards@
            }
        }
}

/// The trump suit that a cut card gives: the suit of a normal card, none
/// for a Jester, for a Wizard (until the dealer has chosen) and for no card.
pub open spec fn trump_of(cut: Option<Card>) -> Option<Suit> {
    match cut {
        Some(Card::NormalCard(n)) => Some(n.suit),
        _ => None,
    }
}

/// The stage that follows the cut: after a Wizard the dealer chooses the
/// trump suit, after anything else bidding starts.
pub open spec fn stage_after_cut(cut: Option<Card>) -> Stage {
    match cut {
        Some(Card::SpecialCard(SpecialCard::Wizard)) => Stage::ChoosingTrump,
        _ => Stage::Bidding,
    }
}

/// The card on top of a deck, if the deck has one.
pub open spec fn top_card(deck: Seq<Card>) -> Option<Card> {
    if deck.len() > 0 {
        Some(deck.last())
    } else {
        None
    }
}

/// The players after each has been scored for the round.
pub open spec fn scored(before: Seq<Player>, after: Seq<Player>) -> bool {
    &&& after.len() == before.len()
    &&& forall|i: int|
        0 <= i < after.len() ==> {
            &&& (#[trigger] after[i]).score == before[i].score + round_score(
                before[i].bid->0 as int,
                before[i].tricks_taken as int,
            )
            &&& after[i].bid is None
            &&& after[i].tricks_taken == 0
            &&& after[i].cards == before[i].cards
        }
}

/// With three to six players the 60 cards divide evenly: 20, 15, 12 or 10
/// rounds, and the hands of the last round take the whole deck.
pub proof fn rounds_divide_evenly(player_count: int)
    requires
        3 <= player_count <= 6,
    ensures
        60int / player_count == (if player_count == 3 {
            20int
        } else if player_count == 4 {
            15int
        } else if player_count == 5 {
            12int
        } else {
            10int
        }),
        player_count * (60int / player_count) == 60,
{
    if player_count == 3 {
        assert(60int / 3 == 20);
    } else if player_count == 4 {
        assert(60int / 4 == 15);
    } else if player_count == 5 {
        assert(60int / 5 == 12);
    } else {
        assert(60int / 6 == 10);
    }
}

/// No round asks more of the deck than its 60 cards: the hands of a round
/// up to the last take at most the whole deck.
pub proof fn deck_serves_every_round(player_count: int, round: int)
    requires
        3 <= player_count <= 6,
        0 <= round <= 60int / player_count,
    ensures
        player_count * round <= 60,
{
    rounds_divide_evenly(player_count);
    assert(player_count * round <= 60) by (nonlinear_arith)
        requires
            player_count * (60int / player_count) == 60,
            round <= 60int / player_count,
            player_count >= 3,
    ;
}

/// Counting `steps` seats on from a seat, round a table of three to six,
/// ends at a seat that is `steps` seats after the first.
pub proof fn seats_round_the_table(player_count: int, from: int, steps: int)
    requires
        3 <= player_count <= 6,
        0 <= from < player_count,
        0 <= steps < player_count,
    ensures
        0 <= (from + steps) % player_count < player_count,
        ((from + steps) % player_count + player_count - from) % player_count == steps,
{
    if player_count == 3 {
    } else if player_count == 4 {
    } else if player_count == 5 {
    } else {
    }
}

/// Every seat of a table of three to six is reached from any seat by
/// counting on fewer seats than the table has, and by one count only.
pub proof fn turns_round_the_table(player_count: int, from: int, seat: int)
    requires
        3 <= player_count <= 6,
        0 <= from < player_count,
        0 <= seat < player_count,
    ensures
        0 <= (seat + player_count - from) % player_count < player_count,
        (from + (seat + player_count - from) % player_count) % player_count == seat,
{
    if player_count == 3 {
    } else if player_count == 4 {
    } else if player_count == 5 {
    } else {
    }
}

impl WizardGame {
    /// Number of players.
    pub open spec fn player_count(self) -> int {
        self.players@.len() as int
    }

    /// Number of rounds of a game: as many as the 60 cards allow.
    pub open spec fn spec_num_rounds(self) -> int {
        60int / self.player_count()
    }

    /// The dealer: the player before the starting player.
    pub open spec fn dealer(self) -> int {
        (self.starting_player + self.player_count() - 1) % self.player_count()
    }

    /// The player whose bid is due.
    pub open spec fn bidder(self) -> int {
        (self.starting_player + self.bids_made) % self.player_count()
    }

    /// The player whose card is due.
    pub open spec fn mover(self) -> int {
        (self.leading_player + self.played_cards@.len()) % self.player_count()
    }

    /// Seats from the player who leads the trick on to `seat`, round the
    /// table: the leader's turn is 0.
    pub open spec fn turn(self, seat: int) -> int {
        (seat + self.player_count() - self.leading_player) % self.player_count()
    }

    /// Seats from the starting player on to `seat`, round the table.
    pub open spec fn bid_turn(self, seat: int) -> int {
        (seat + self.player_count() - self.starting_player) % self.player_count()
    }

    /// Whether the player at `seat` has played in the current trick.
    pub open spec fn has_played(self, seat: int) -> bool {
        self.turn(seat) < self.played_cards@.len()
    }

    /// What the stage asks of the player at `seat`. Before and during
    /// bidding the hand has as many cards as the round's number, and who
    /// has had a turn to bid has a bid. During trick play every player
    /// has a bid and one card for each trick still to play, less the card
    /// played in the current trick. When the round is to be scored every
    /// player has a bid and no card.
    pub open spec fn seat_ok(self, seat: int) -> bool {
        let player = self.players@[seat];
        match self.stage {
            Stage::ChoosingTrump => player.cards@.len() == self.round,
            Stage::Bidding => {
                &&& player.cards@.len() == self.round
                &&& self.bid_turn(seat) < self.bids_made ==> player.bid is Some
            },
            Stage::Playing => {
                let in_trick: int = if self.has_played(seat) {
                    1
                } else {
                    0
                };
                &&& player.bid is Some
                &&& player.cards@.len() == self.round - self.tricks_played - in_trick
            },
            Stage::Scoring => player.bid is Some && player.cards@.len() == 0,
            _ => true,
        }
    }

    /// Every player can be scored.
    pub open spec fn all_can_score(self) -> bool {
        forall|i: int| 0 <= i < self.players@.len() ==> (#[trigger] self.players@[i]).can_score()
    }

    /// The invariant of a game: three to six players, counters in range,
    /// a stage that agrees with the counters, and players with the bids
    /// and hands that the stage asks for.
    pub open spec fn wf(self) -> bool {
        &&& 3 <= self.player_count() <= 6
        &&& forall|i: int| 0 <= i < self.players@.len() ==> #[trigger] self.seat_ok(i)
        &&& self.starting_player < self.player_count()
        &&& self.leading_player < self.player_count()
        &&& self.round <= self.spec_num_rounds()
        &&& self.bids_made <= self.player_count()
        &&& self.tricks_played <= self.round
        &&& self.played_cards@.len() < self.player_count()
        &&& forall|i: int|
            0 <= i < self.players@.len() ==> (#[trigger] self.players@[i]).tricks_taken
                <= self.tricks_played
        &&& self.stage == Stage::Dealing ==> self.round < self.spec_num_rounds()
            && self.tricks_played == 0
        &&& self.stage == Stage::ChoosingTrump ==> self.bids_made == 0 && self.tricks_played == 0
            && self.round >= 1
        &&& self.stage == Stage::Bidding ==> self.bids_made < self.player_count()
            && self.tricks_played == 0 && self.round >= 1
        &&& self.stage == Stage::Playing ==> self.tricks_played < self.round
        &&& self.stage == Stage::Scoring ==> self.tricks_played == self.round
        &&& self.stage != Stage::Playing ==> self.played_cards@.len() == 0
    }

    /// Sets up a game for `num_players` players, each with one connection
    /// to read and one to write. Fails unless there are three to six
    /// players and as many connections of each kind.
    pub fn new(num_players: usize, num_listeners: usize, num_writers: usize) -> (r: Result<
        WizardGame,
        GameError,
    >)
        ensures
            match r {
                Ok(game) => {
                    &&& 3 <= num_players <= 6
                    &&& num_listeners == num_players
                    &&& num_writers == num_players
                    &&& game.wf()
                    &&& game.players@.len() == num_players
                    &&& forall|i: int|
                        0 <= i < num_players ==> {
                            &&& (#[trigger] game.players@[i]).score == 0
                            &&& game.players@[i].bid is None
                            &&& game.players@[i].cards@.len() == 0
                            &&& game.players@[i].tricks_taken == 0
                        }
                    &&& game.starting_player == 0
                    &&& game.round == 0
                    &&& game.trump_suit is None
                    &&& game.stage == Stage::Dealing
                    &&& game.bids_made == 0
                    &&& game.tricks_played == 0
                    &&& game.leading_player == 0
                    &&& game.played_cards@.len() == 0
                },
                Err(e) => {
                    &&& num_players < 3 || num_players > 6 || num_listeners != num_players
                        || num_writers != num_players
                    &&& e == (if num_players < 3 {
                        GameError::NotEnoughPlayers { requested: num_players }
                    } else if num_players > 6 {
                        GameError::TooManyPlayers { requested: num_players }
                    } else {
                        GameError::ConnectionMismatch {
                            players: num_players,
                            listeners: num_listeners,
                            writers: num_writers,
                        }
                    })
                },
            },
    {
        if num_players < 3 {
            return Err(GameError::NotEnoughPlayers { requested: num_players });
        } else if num_players > 6 {
            return Err(GameError::TooManyPlayers { requested: num_players });
        }
        if num_players != num_listeners || num_players != num_writers {
            return Err(
                GameError::ConnectionMismatch {
                    players: num_players,
                    listeners: num_listeners,
                    writers: num_writers,
                },
            );
        }
        proof {
            rounds_divide_evenly(num_players as int);
        }
        let mut players: Vec<Player> = Vec::new();
        let mut i: usize = 0;
        while i < num_players
            invariant
                i <= num_players,
                players@.len() == i,
                forall|j: int|
                    0 <= j < i ==> {
                        &&& (#[trigger] players@[j]).score == 0
                        &&& players@[j].bid is None
                        &&& players@[j].cards@.len() == 0
                        &&& players@[j].tricks_taken == 0
                    },
            decreases num_players - i,
        {
            players.push(Player::new());
            i += 1;
        }
        Ok(
            WizardGame {
                players,
                starting_player: 0,
                round: 0,
                trump_suit: None,
                stage: Stage::Dealing,
                bids_made: 0,
                tricks_played: 0,
                leading_player: 0,
                played_cards: Vec::new(),
            },
        )
    }

    /// Tests the invariant of the game.
    pub fn valid(&self) -> (b: bool)
        ensures
            b == self.wf(),
    {
        let n = self.players.len();
        if n < 3 || n > 6 {
            return false;
        }
        let rounds = 60 / n;
        let round = self.round as usize;
        if self.starting_player >= n || self.leading_player >= n || round > rounds
            || self.bids_made > n || self.tricks_played > self.round || self.played_cards.len()
            >= n {
            return false;
        }
        let mut i: usize = 0;
        while i < n
            invariant
                i <= n,
                n == self.players@.len(),
                forall|j: int|
                    0 <= j < i ==> (#[trigger] self.players@[j]).tricks_taken
                        <= self.tricks_played,
            decreases n - i,
        {
            if self.players[i].tricks_taken > self.tricks_played {
                return false;
            }
            i += 1;
        }
        let mut k: usize = 0;
        while k < n
            invariant
                k <= n,
                3 <= n <= 6,
                n == self.players@.len(),
                self.starting_player < n,
                self.leading_player < n,
                self.tricks_played <= self.round,
                forall|j: int| 0 <= j < k ==> #[trigger] self.seat_ok(j),
            decreases n - k,
        {
            let player = &self.players[k];
            let hand = player.cards.len();
            let full = self.round as usize;
            let ok = match self.stage {
                Stage::ChoosingTrump => hand == full,
                Stage::Bidding => hand == full && ((k + n - self.starting_player) % n
                    >= self.bids_made || player.bid.is_some()),
                Stage::Playing => {
                    let played: usize = if (k + n - self.leading_player) % n
                        < self.played_cards.len() {
                        1
                    } else {
                        0
                    };
                    player.bid.is_some() && hand <= full && full - hand == played
                        + self.tricks_played as usize
                },
                Stage::Scoring => player.bid.is_some() && hand == 0,
                _ => true,
            };
            if !ok {
                assert(!self.seat_ok(k as int));
                return false;
            }
            k += 1;
        }
        let start = self.tricks_played == 0;
        let in_stage = match self.stage {
            Stage::Dealing => round < rounds && start,
            Stage::ChoosingTrump => self.bids_made == 0 && start && self.round >= 1,
            Stage::Bidding => self.bids_made < n && start && self.round >= 1,
            Stage::Playing => self.tricks_played < self.round,
            Stage::Scoring => self.tricks_played == self.round,
            Stage::Finished => true,
        };
        in_stage && (self.stage == Stage::Playing || self.played_cards.len() == 0)
    }

    /// Number of rounds of the game.
    pub fn num_rounds(&self) -> (r: usize)
        requires
            self.players@.len() > 0,
        ensures
            r == self.spec_num_rounds(),
    {
        60 / self.players.len()
    }

    /// Deals `round` cards to each player off the top of the deck, seat by
    /// seat. Stops at the first player whom the deck cannot serve.
    pub fn deal(&mut self, deck: &mut Deck) -> (r: Result<(), DeckError>)
        ensures
            *final(self) == (WizardGame { players: final(self).players, ..*old(self) }),
            match r {
                Ok(_) => {
                    &&& old(self).player_count() * old(self).round <= old(deck)@.len()
                    &&& dealt(
                        old(self).players@,
                        final(self).players@,
                        old(deck)@,
                        old(self).round as int,
                        old(self).player_count(),
                    )
                    &&& final(deck)@ == old(deck)@.subrange(
                        0,
                        old(deck)@.len() - old(self).player_count() * old(self).round,
                    )
                },
                Err(e) => exists|k: int|
                    {
                        &&& 0 <= k < old(self).player_count()
                        &&& k * old(self).round <= old(deck)@.len() < (k + 1) * old(self).round
                        &&& #[trigger] dealt(
                            old(self).players@,
                            final(self).players@,
                            old(deck)@,
                            old(self).round as int,
                            k,
                        )
                        &&& final(deck)@ == old(deck)@.subrange(
                            0,
                            old(deck)@.len() - k * old(self).round,
                        )
                        &&& e.remaining == old(deck)@.len() - k * old(self).round
                        &&& e.requested == old(self).round
                    },
            },
    {
        let round = self.round as usize;
        let ghost total = deck@.len() as int;
        let mut i: usize = 0;
        while i < self.players.len()
            invariant
                i <= self.players@.len(),
                round == old(self).round,
                total == old(deck)@.len(),
                *self == (WizardGame { players: self.players, ..*old(self) }),
                i * round <= total,
                dealt(old(self).players@, self.players@, old(deck)@, round as int, i as int),
                deck@ == old(deck)@.subrange(0, total - i * round),
            decreases self.players@.len() - i,
        {
            assert((i + 1) * round == i * round + round) by (nonlinear_arith);
            match deck.deal(round) {
                Ok(hand) => {
                    assert(hand@ =~= hand_of(old(deck)@, round as int, i as int));
                    assert(deck@ =~= old(deck)@.subrange(0, total - (i + 1) * round));
                    self.players[i].cards = hand;
                },
                Err(e) => {
                    assert(dealt(
                        old(self).players@,
                        self.players@,
                        old(deck)@,
                        old(self).round as int,
                        i as int,
                    ));
                    return Err(e);
                },
            }
            i += 1;
        }
        Ok(())
    }

    /// Cuts the deck for the trump suit: the top card leaves the deck. A
    /// normal card makes its suit trump and a Jester leaves the round
    /// without trump, as does an empty deck; bidding is next. After a
    /// Wizard the dealer has to choose.
    pub fn reveal_trump(&mut self, deck: &mut Deck)
        ensures
            *final(self) == (WizardGame {
                trump_suit: trump_of(top_card(old(deck)@)),
                stage: stage_after_cut(top_card(old(deck)@)),
                ..*old(self)
            }),
            final(deck)@ == if old(deck)@.len() > 0 {
                old(deck)@.drop_last()
            } else {
                old(deck)@
            },
    {
        match deck.deal(1) {
            Ok(card) => {
                assert(card@[0] == old(deck)@.last());
                assert(deck@ =~= old(deck)@.drop_last());
                match card[0] {
                    Card::SpecialCard(SpecialCard::Wizard) => {
                        self.trump_suit = None;
                        self.stage = Stage::ChoosingTrump;
                    },
                    Card::SpecialCard(SpecialCard::Jester) => {
                        self.trump_suit = None;
                        self.stage = Stage::Bidding;
                    },
                    Card::NormalCard(normal_card) => {
                        self.trump_suit = Some(normal_card.suit);
                        self.stage = Stage::Bidding;
                    },
                }
            },
            Err(_) => {
                self.trump_suit = None;
                self.stage = Stage::Bidding;
            },
        }
    }

    /// The player who chooses the trump suit after a Wizard was cut.
    pub fn dealing_player(&self) -> (p: usize)
        requires
            self.wf(),
        ensures
            p == self.dealer(),
            p < self.players@.len(),
    {
        (self.starting_player + self.players.len() - 1) % self.players.len()
    }

    /// The player whose bid is due.
    pub fn bidding_player(&self) -> (p: usize)
        requires
            self.wf(),
        ensures
            p == self.bidder(),
            p < self.players@.len(),
    {
        (self.starting_player + self.bids_made) % self.players.len()
    }

    /// The player whose card is due.
    pub fn playing_player(&self) -> (p: usize)
        requires
            self.wf(),
        ensures
            p == self.mover(),
            p < self.players@.len(),
    {
        (self.leading_player + self.played_cards.len()) % self.players.len()
    }

    /// The winner of a trick: the player who played the winning card,
    /// given who led.
    pub fn trick_winner(&self, cards: &Vec<Card>, leading_player: usize) -> (w: usize)
        requires
            cards@.len() > 0,
            self.players@.len() > 0,
            cards@.len() + leading_player <= usize::MAX,
        ensures
            w == trick_winner_of(
                cards@,
                leading_player as int,
                self.trump_suit,
                self.player_count(),
            ),
            w < self.players@.len(),
    {
        let suit = leading_suit(cards);
        let winning = winning_card(cards, suit, self.trump_suit);
        (winning + leading_player) % self.players.len()
    }
}

} // verus!
