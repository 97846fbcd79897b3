use vstd::prelude::*;
use vstd::multiset::*;
use vstd::seq_lib::*;
use rand::rngs::ThreadRng;
use rand::seq::SliceRandom;
use crate::cards::card::Card;
use crate::cards::normal_card::NormalCard;
use crate::cards::rank::Rank;
use crate::cards::special_card::SpecialCard;
use crate::cards::suit::Suit;
use crate::random::thread_generator;

verus! {

/// The cards that are left to deal, the top of the deck last.
#[derive(Clone, Debug, PartialEq)]
pub struct Deck {
    pub cards: Vec<Card>,
}

/// A deal that asked for more cards than the deck holds.
#[derive(Copy, Clone, Debug, PartialEq, Eq, Structural)]
pub struct DeckError {
    /// Cards that were left in the deck.
    pub remaining: usize,
    /// Cards that were asked for.
    pub requested: usize,
}

/// Copies of a card in a full deck: one of each normal card, four Wizards
/// and four Jesters.
pub open spec fn full_count(card: Card) -> nat {
    match card {
        Card::NormalCard(_) => 1,
        Card::SpecialCard(_) => 4,
    }
}

/// Place of a normal card when the 52 are listed suit by suit, each suit
/// from Two up to Ace.
pub open spec fn listing_place(card: NormalCard) -> int {
    card.suit.index() * 13 + card.rank.spec_value() - 2
}

/// The card at a place of the listing of all 60: the 52 normal cards suit
/// by suit, each suit from Two up to Ace, then Wizard and Jester in turn,
/// four times.
pub open spec fn listed_card(place: int) -> Card {
    if place < 52 {
        Card::NormalCard(
            NormalCard { suit: Suit::at(place / 13), rank: Rank::of_value(place % 13 + 2) },
        )
    } else if (place - 52) % 2 == 0 {
        Card::SpecialCard(SpecialCard::Wizard)
    } else {
        Card::SpecialCard(SpecialCard::Jester)
    }
}

/// Two normal cards at the same place of the listing are the same card.
pub proof fn listing_place_injective(a: NormalCard, b: NormalCard)
    requires
        listing_place(a) == listing_place(b),
    ensures
        a == b,
{
    assert(0 <= a.rank.spec_value() - 2 < 13);
    assert(0 <= b.rank.spec_value() - 2 < 13);
    assert(a.suit.index() == b.suit.index());
    assert(a.rank.spec_value() == b.rank.spec_value());
}

/// Pushing a card onto a sequence adds one copy of that card and of no
/// other.
pub proof fn count_after_push(cards: Seq<Card>, pushed: Card, counted: Card)
    ensures
        cards.push(pushed).to_multiset().count(counted) == cards.to_multiset().count(counted) + (
        if pushed == counted {
            1nat
        } else {
            0nat
        }),
{
    broadcast use group_multiset_axioms;

    to_multiset_build(cards, pushed);
}

/// Shuffles the cards by `rand::seq::SliceRandom::shuffle`. The shuffle
/// only swaps elements, so the same cards are there afterwards, each as
/// often as before; nothing is claimed of their order.
#[verifier::external_body]
fn shuffle_cards(cards: &mut Vec<Card>, rng: &mut ThreadRng)
    ensures
        final(cards)@.to_multiset() == old(cards)@.to_multiset(),
{
    cards.shuffle(rng);
}

impl View for Deck {
    type V = Seq<Card>;

    open spec fn view(&self) -> Seq<Card> {
        self.cards@
    }
}

impl Deck {
    /// No card occurs more often than in a full deck.
    pub open spec fn wf(&self) -> bool {
        forall|c: Card| #[trigger] self@.to_multiset().count(c) <= full_count(c)
    }

    /// The deck holds exactly the 60 cards of the game.
    pub open spec fn is_full(&self) -> bool {
        &&& self@.len() == 60
        &&& forall|c: Card| #[trigger] self@.to_multiset().count(c) == full_count(c)
    }

    /// The 60 cards in listing order: the 52 normal cards, then Wizards and
    /// Jesters in turn.
    pub fn ordered() -> (deck: Deck)
        ensures
            deck@ == Seq::new(60, |place: int| listed_card(place)),
            deck.is_full(),
    {
        broadcast use group_multiset_axioms;

        let mut cards: Vec<Card> = Vec::new();
        let mut i: usize = 0;
        assert(cards@.to_multiset() =~= Multiset::<Card>::empty()) by {
            cards@.to_multiset_ensures();
        }
        while i < 52
            invariant
                i <= 52,
                cards@.len() == i,
                forall|j: int| 0 <= j < i ==> cards@[j] == listed_card(j),
                forall|n: NormalCard| #[trigger]
                    cards@.to_multiset().count(Card::NormalCard(n)) == (if listing_place(n) < i {
                        1nat
                    } else {
                        0nat
                    }),
                forall|s: SpecialCard| #[trigger]
                    cards@.to_multiset().count(Card::SpecialCard(s)) == 0,
            decreases 52 - i,
        {
            let suit = Suit::from_index(i / 13);
            let rank = Rank::from_value((i % 13) as u8 + 2);
            let card = NormalCard { suit, rank };
            let ghost before = cards@;
            cards.push(Card::NormalCard(card));
            proof {
                assert(listing_place(card) == i);
                assert(cards@ == before.push(Card::NormalCard(card)));
                assert forall|n: NormalCard| #[trigger]
                    cards@.to_multiset().count(Card::NormalCard(n)) == (if listing_place(n) < i + 1 {
                        1nat
                    } else {
                        0nat
                    }) by {
                    count_after_push(before, Card::NormalCard(card), Card::NormalCard(n));
                    if listing_place(n) == i {
                        listing_place_injective(n, card);
                    }
                }
                assert forall|s: SpecialCard| #[trigger]
                    cards@.to_multiset().count(Card::SpecialCard(s)) == 0 by {
                    count_after_push(before, Card::NormalCard(card), Card::SpecialCard(s));
                }
            }
            i += 1;
        }
        let mut k: usize = 0;
        while k < 4
            invariant
                k <= 4,
                cards@.len() == 52 + 2 * k,
                forall|j: int| 0 <= j < 52 + 2 * k ==> cards@[j] == listed_card(j),
                forall|n: NormalCard| #[trigger]
                    cards@.to_multiset().count(Card::NormalCard(n)) == 1,
                cards@.to_multiset().count(Card::SpecialCard(SpecialCard::Wizard)) == k,
                cards@.to_multiset().count(Card::SpecialCard(SpecialCard::Jester)) == k,
            decreases 4 - k,
        {
            let ghost before = cards@;
            cards.push(Card::SpecialCard(SpecialCard::Wizard));
            let ghost between = cards@;
            cards.push(Card::SpecialCard(SpecialCard::Jester));
            proof {
                let wizard = Card::SpecialCard(SpecialCard::Wizard);
                let jester = Card::SpecialCard(SpecialCard::Jester);
                assert(between == before.push(wizard));
                assert(cards@ == between.push(jester));
                count_after_push(before, wizard, wizard);
                count_after_push(between, jester, wizard);
                count_after_push(before, wizard, jester);
                count_after_push(between, jester, jester);
                assert forall|n: NormalCard| #[trigger]
                    cards@.to_multiset().count(Card::NormalCard(n)) == 1 by {
                    count_after_push(before, wizard, Card::NormalCard(n));
                    count_after_push(between, jester, Card::NormalCard(n));
                }
            }
            k += 1;
        }
        let ghost listed = cards@;
        let deck = Deck { cards };
        proof {
            assert(deck@ == listed);
            assert(deck@ =~= Seq::new(60, |place: int| listed_card(place)));
            assert forall|c: Card| #[trigger] deck@.to_multiset().count(c) == full_count(c) by {
                match c {
                    Card::NormalCard(n) => {
                        assert(listed.to_multiset().count(Card::NormalCard(n)) == 1);
                    },
                    Card::SpecialCard(SpecialCard::Wizard) => {},
                    Card::SpecialCard(SpecialCard::Jester) => {},
                }
            }
        }
        deck
    }

    /// A new shuffled deck: the 60 cards of the game in some order.
    pub fn new() -> (deck: Deck)
        ensures
            deck.is_full(),
            deck.wf(),
    {
        let mut deck = Deck::ordered();
        deck.shuffle();
        deck
    }

    /// Shuffles the cards that remain: the same cards, each as often as
    /// before, in some order.
    pub fn shuffle(&mut self)
        ensures
            final(self)@.to_multiset() == old(self)@.to_multiset(),
            final(self)@.len() == old(self)@.len(),
            old(self).wf() ==> final(self).wf(),
            old(self).is_full() ==> final(self).is_full(),
    {
        let mut rng = thread_generator();
        shuffle_cards(&mut self.cards, &mut rng);
        proof {
            old(self)@.to_multiset_ensures();
            self@.to_multiset_ensures();
        }
    }

    /// Number of cards that remain.
    pub fn len(&self) -> (n: usize)
        ensures
            n == self@.len(),
    {
        self.cards.len()
    }

    /// Takes the top `n` cards off the deck, in deck order. Fails, and
    /// leaves the deck as it is, if fewer than `n` cards remain.
    pub fn deal(&mut self, n: usize) -> (r: Result<Vec<Card>, DeckError>)
        ensures
            match r {
                Ok(hand) => {
                    &&& n <= old(self)@.len()
                    &&& hand@ == old(self)@.subrange(old(self)@.len() - n, old(self)@.len() as int)
                    &&& final(self)@ == old(self)@.subrange(0, old(self)@.len() - n)
                },
                Err(e) => {
                    &&& n > old(self)@.len()
                    &&& final(self)@ == old(self)@
                    &&& e == (DeckError { remaining: old(self)@.len() as usize, requested: n })
                },
            },
            old(self).wf() ==> final(self).wf(),
    {
        let remaining = self.cards.len();
        if n > remaining {
            return Err(DeckError { remaining, requested: n });
        }
        let hand = self.cards.split_off(remaining - n);
        proof {
            dealing_conserves_cards(old(self)@, remaining - n);
        }
        Ok(hand)
    }
}

/// Dealing neither makes nor loses a card: the cards left and the cards
/// dealt are together the cards that were there, each as often as before.
pub proof fn dealing_conserves_cards(deck: Seq<Card>, left: int)
    requires
        0 <= left <= deck.len(),
    ensures
        deck.subrange(0, left).to_multiset().add(
            deck.subrange(left, deck.len() as int).to_multiset(),
        ) == deck.to_multiset(),
        forall|c: Card| #[trigger]
            deck.subrange(0, left).to_multiset().count(c) <= deck.to_multiset().count(c),
{
    broadcast use group_multiset_axioms;

    let a = deck.subrange(0, left);
    let b = deck.subrange(left, deck.len() as int);
    assert(a + b =~= deck);
    lemma_multiset_commutative(a, b);
}

} // verus!
