use vstd::prelude::*;
use crate::cards::card::Card;
use crate::cards::suit::Suit;

verus! {

/// What the engine keeps about one player.
#[derive(Debug)]
pub struct Player {
    /// Cumulative score over the rounds played so far.
    pub score: i16,
    /// The bid of the current round, unset until the player has bid.
    pub bid: Option<u8>,
    /// The cards in hand.
    pub cards: Vec<Card>,
    /// Tricks won in the current round.
    pub tricks_taken: u8,
}

/// Points that a round is worth: a met bid earns 20 and 10 for each trick,
/// a missed bid costs 10 for each trick of difference.
pub open spec fn round_score(bid: int, tricks: int) -> int {
    if bid == tricks {
        20 + 10 * tricks
    } else if bid > tricks {
        -10 * (bid - tricks)
    } else {
        -10 * (tricks - bid)
    }
}

/// Whether a card may be played when `lead` is the leading suit: special
/// cards always, normal cards if they follow suit.
pub open spec fn follows(card: Card, lead: Option<Suit>) -> bool {
    match card {
        Card::SpecialCard(_) => true,
        Card::NormalCard(n) => Some(n.suit) == lead,
    }
}

/// Whether a hand holds a normal card of the leading suit.
pub open spec fn holds_suit(hand: Seq<Card>, lead: Option<Suit>) -> bool {
    exists|i: int| 0 <= i < hand.len() && hand[i] is NormalCard && #[trigger] hand[i].suit() == lead
}

/// The legal subset of a hand: with a card of the leading suit in hand,
/// the cards of that suit and the special cards, in hand order; otherwise
/// the whole hand.
pub open spec fn playable(hand: Seq<Card>, lead: Option<Suit>) -> Seq<Card> {
    if holds_suit(hand, lead) {
        hand.filter(|c: Card| follows(c, lead))
    } else {
        hand
    }
}

/// Whether `i` is the first place of `card` in `hand`.
pub open spec fn first_place(hand: Seq<Card>, card: Card, i: int) -> bool {
    &&& 0 <= i < hand.len()
    &&& hand[i] == card
    &&& forall|j: int| 0 <= j < i ==> hand[j] != card
}

impl Player {
    /// Whether scoring is possible: a bid is set, the hand is played out
    /// and the new score fits the score's type.
    pub open spec fn can_score(self) -> bool {
        &&& self.bid is Some
        &&& self.cards@.len() == 0
        &&& i16::MIN <= self.score + round_score(self.bid->0 as int, self.tricks_taken as int)
            <= i16::MAX
    }

    /// A player before the first round: no score, no bid, no cards.
    pub fn new() -> (p: Player)
        ensures
            p.score == 0,
            p.bid is None,
            p.cards@ == Seq::<Card>::empty(),
            p.tricks_taken == 0,
    {
        Player { score: 0, bid: None, cards: Vec::new(), tricks_taken: 0 }
    }

    /// Tests `can_score`.
    pub fn ready_to_score(&self) -> (b: bool)
        ensures
            b == self.can_score(),
    {
        match self.bid {
            None => false,
            Some(bid) => {
                if self.cards.len() != 0 {
                    false
                } else {
                    let s: i32 = self.score as i32;
                    let b: i32 = bid as i32;
                    let t: i32 = self.tricks_taken as i32;
                    let next: i32 = if b == t {
                        s + 20 + 10 * t
                    } else if b > t {
                        s - 10 * (b - t)
                    } else {
                        s - 10 * (t - b)
                    };
                    -32768 <= next && next <= 32767
                }
            },
        }
    }

    /// Records the player's bid for the round.
    pub fn bid(&mut self, amount: u8)
        ensures
            final(self).bid == Some(amount),
            final(self).score == old(self).score,
            final(self).cards == old(self).cards,
            final(self).tricks_taken == old(self).tricks_taken,
    {
        self.bid = Some(amount);
    }

    /// Whether the hand holds the card.
    pub fn holds(&self, card: Card) -> (b: bool)
        ensures
            b == self.cards@.contains(card),
    {
        let mut i: usize = 0;
        while i < self.cards.len()
            invariant
                i <= self.cards.len(),
                forall|j: int| 0 <= j < i ==> self.cards@[j] != card,
            decreases self.cards.len() - i,
        {
            if self.cards[i] == card {
                return true;
            }
            i += 1;
        }
        false
    }

    /// Plays a card out of the hand: its first copy leaves the hand, the
    /// rest keeps its order. The card must be in the hand.
    pub fn play_card(&mut self, played_card: Card) -> (c: Card)
        requires
            old(self).cards@.contains(played_card),
        ensures
            c == played_card,
            exists|i: int|
                {
                    &&& #[trigger] first_place(old(self).cards@, played_card, i)
                    &&& final(self).cards@ == old(self).cards@.remove(i)
                },
            final(self).score == old(self).score,
            final(self).bid == old(self).bid,
            final(self).tricks_taken == old(self).tricks_taken,
    {
        let mut i: usize = 0;
        while i < self.cards.len() && self.cards[i] != played_card
            invariant
                i <= self.cards.len(),
                *self == *old(self),
                forall|j: int| 0 <= j < i ==> self.cards@[j] != played_card,
            decreases self.cards.len() - i,
        {
            i += 1;
        }
        assert(first_place(old(self).cards@, played_card, i as int));
        self.cards.remove(i);
        played_card
    }

    /// The cards of the hand that may be played on the given leading suit.
    pub fn playable_cards(&self, lead_suit: Option<Suit>) -> (r: Vec<Card>)
        ensures
            r@ == playable(self.cards@, lead_suit),
    {
        let mut has_lead_suit = false;
        let mut i: usize = 0;
        while i < self.cards.len()
            invariant
                i <= self.cards.len(),
                has_lead_suit == holds_suit(self.cards@.take(i as int), lead_suit),
            decreases self.cards.len() - i,
        {
            let ghost before = self.cards@.take(i as int);
            let ghost after = self.cards@.take(i + 1);
            proof {
                assert(after =~= before.push(self.cards@[i as int]));
                if holds_suit(before, lead_suit) {
                    let k = choose|k: int|
                        0 <= k < before.len() && before[k] is NormalCard && #[trigger] before[k].suit()
                            == lead_suit;
                    assert(after[k] is NormalCard && after[k].suit() == lead_suit);
                }
            }
            if let Card::NormalCard(normal_card) = self.cards[i] {
                if Some(normal_card.suit) == lead_suit {
                    has_lead_suit = true;
                    assert(after[i as int] is NormalCard && after[i as int].suit() == lead_suit);
                }
            }
            proof {
                if holds_suit(after, lead_suit) && !has_lead_suit {
                    let k = choose|k: int|
                        0 <= k < after.len() && after[k] is NormalCard && #[trigger] after[k].suit()
                            == lead_suit;
                    if k < i {
                        assert(before[k] is NormalCard && before[k].suit() == lead_suit);
                    }
                }
            }
            i += 1;
        }
        assert(self.cards@.take(i as int) =~= self.cards@);
        let mut playable_cards: Vec<Card> = Vec::new();
        let mut j: usize = 0;
        while j < self.cards.len()
            invariant
                j <= self.cards.len(),
                playable_cards@ == if has_lead_suit {
                    self.cards@.take(j as int).filter(|c: Card| follows(c, lead_suit))
                } else {
                    self.cards@.take(j as int)
                },
            decreases self.cards.len() - j,
        {
            let card = self.cards[j];
            proof {
                assert(self.cards@.take(j + 1) =~= self.cards@.take(j as int).push(card));
                self.cards@.take(j as int).lemma_filter_push(card, |c: Card| follows(c, lead_suit));
            }
            let legal = match card {
                Card::SpecialCard(_) => true,
                Card::NormalCard(normal_card) => Some(normal_card.suit) == lead_suit,
            };
            if !has_lead_suit || legal {
                playable_cards.push(card);
            }
            j += 1;
        }
        assert(self.cards@.take(j as int) =~= self.cards@);
        playable_cards
    }

    /// Credits the player with a trick.
    pub fn won_trick(&mut self)
        requires
            old(self).tricks_taken < u8::MAX,
        ensures
            final(self).tricks_taken == old(self).tricks_taken + 1,
            final(self).score == old(self).score,
            final(self).bid == old(self).bid,
            final(self).cards == old(self).cards,
    {
        self.tricks_taken += 1;
    }

    /// Scores the round and resets bid and tricks for the next one.
    pub fn update_score(&mut self)
        requires
            old(self).can_score(),
        ensures
            final(self).score == old(self).score + round_score(
                old(self).bid->0 as int,
                old(self).tricks_taken as int,
            ),
            final(self).bid is None,
            final(self).tricks_taken == 0,
            final(self).cards == old(self).cards,
    {
        match self.bid {
            Some(bid) => {
                if self.tricks_taken == bid {
                    self.score = self.score + (20 + 10 * (self.tricks_taken as i16));
                } else if bid > self.tricks_taken {
                    self.score = self.score - 10 * ((bid - self.tricks_taken) as i16);
                } else {
                    self.score = self.score - 10 * ((self.tricks_taken - bid) as i16);
                }
            },
            None => {},
        }
        self.bid = None;
        self.tricks_taken = 0;
    }
}

} // verus!
