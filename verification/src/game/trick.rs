use vstd::prelude::*;
use crate::cards::card::Card;
use crate::cards::special_card::SpecialCard;
use crate::cards::suit::Suit;

verus! {

/// Whether a Wizard is among the cards.
pub open spec fn has_wizard(cards: Seq<Card>) -> bool {
    exists|i: int| 0 <= i < cards.len() && #[trigger] cards[i].is_wizard()
}

/// Whether `i` is the place of the first normal card.
pub open spec fn first_normal(cards: Seq<Card>, i: int) -> bool {
    &&& 0 <= i < cards.len()
    &&& cards[i] is NormalCard
    &&& forall|j: int| 0 <= j < i ==> cards[j] is SpecialCard
}

/// Whether `suit` is the leading suit of the cards played so far: no
/// Wizard has been played, and the first normal card, if there is one,
/// gives the suit.
pub open spec fn is_leading_suit(cards: Seq<Card>, suit: Option<Suit>) -> bool {
    match suit {
        Some(s) => !has_wizard(cards) && exists|i: int| #[trigger]
            first_normal(cards, i) && cards[i].suit() == Some(s),
        None => has_wizard(cards) || forall|i: int|
            0 <= i < cards.len() ==> #[trigger] cards[i] is SpecialCard,
    }
}

/// The leading suit that the cards played so far establish.
pub open spec fn leading_suit_of(cards: Seq<Card>) -> Option<Suit> {
    choose|suit: Option<Suit>| is_leading_suit(cards, suit)
}

/// The player who wins a trick: the place of the winning card in play
/// order, counted on from the player who led, round the table.
pub open spec fn trick_winner_of(
    cards: Seq<Card>,
    leading_player: int,
    trump_suit: Option<Suit>,
    player_count: int,
) -> int {
    (winning_place(cards, leading_suit_of(cards), trump_suit, cards.len() as int) + leading_player)
        % player_count
}

/// The decision table of the game: whether `candidate` takes the trick
/// from `base`, the card that was winning so far.
pub open spec fn beats(
    base: Card,
    candidate: Card,
    leading_suit: Option<Suit>,
    trump_suit: Option<Suit>,
) -> bool {
    match (base, candidate) {
        (Card::SpecialCard(SpecialCard::Wizard), _) => false,
        (_, Card::SpecialCard(SpecialCard::Wizard)) => true,
        (_, Card::SpecialCard(SpecialCard::Jester)) => false,
        (Card::SpecialCard(SpecialCard::Jester), _) => true,
        (Card::NormalCard(b), Card::NormalCard(c)) => {
            if b.suit == c.suit {
                b.rank.spec_value() < c.rank.spec_value()
            } else if Some(b.suit) == trump_suit {
                false
            } else if Some(c.suit) == trump_suit {
                true
            } else if Some(b.suit) == leading_suit {
                false
            } else {
                Some(c.suit) == leading_suit
            }
        },
    }
}

/// Place of the winning card among the first `n` cards: the first card
/// wins until a later one beats the winner so far.
pub open spec fn winning_place(
    cards: Seq<Card>,
    leading_suit: Option<Suit>,
    trump_suit: Option<Suit>,
    n: int,
) -> int
    decreases n,
{
    if n <= 1 {
        0
    } else {
        let w = winning_place(cards, leading_suit, trump_suit, n - 1);
        if beats(cards[w], cards[n - 1], leading_suit, trump_suit) {
            n - 1
        } else {
            w
        }
    }
}

/// The leading suit of the cards played so far in a trick.
pub fn leading_suit(cards: &Vec<Card>) -> (r: Option<Suit>)
    ensures
        is_leading_suit(cards@, r),
        r == leading_suit_of(cards@),
{
    let mut i: usize = 0;
    while i < cards.len()
        invariant
            i <= cards.len(),
            forall|j: int| 0 <= j < i ==> !(#[trigger] cards@[j].is_wizard()),
        decreases cards.len() - i,
    {
        if let Card::SpecialCard(SpecialCard::Wizard) = cards[i] {
            proof {
                assert(cards@[i as int].is_wizard());
                leading_suit_determined(cards@, None);
            }
            return None;
        }
        i += 1;
    }
    let mut k: usize = 0;
    while k < cards.len()
        invariant
            k <= cards.len(),
            !has_wizard(cards@),
            forall|j: int| 0 <= j < k ==> #[trigger] cards@[j] is SpecialCard,
        decreases cards.len() - k,
    {
        if let Card::NormalCard(normal_card) = cards[k] {
            proof {
                assert(first_normal(cards@, k as int));
                leading_suit_determined(cards@, Some(normal_card.suit));
            }
            return Some(normal_card.suit);
        }
        k += 1;
    }
    proof {
        leading_suit_determined(cards@, None);
    }
    None
}

/// Whether `candidate` takes the trick from `base`.
pub fn is_better_card(
    base_card: &Card,
    is_better: &Card,
    leading_suit: Option<Suit>,
    trump_suit: Option<Suit>,
) -> (r: bool)
    ensures
        r == beats(*base_card, *is_better, leading_suit, trump_suit),
{
    match (base_card, is_better) {
        (Card::SpecialCard(SpecialCard::Wizard), _) => false,
        (_, Card::SpecialCard(SpecialCard::Wizard)) => true,
        (_, Card::SpecialCard(SpecialCard::Jester)) => false,
        (Card::SpecialCard(SpecialCard::Jester), _) => true,
        (Card::NormalCard(base), Card::NormalCard(better)) => {
            if base.suit == better.suit {
                base.rank < better.rank
            } else if Some(base.suit) == trump_suit {
                false
            } else if Some(better.suit) == trump_suit {
                true
            } else if Some(base.suit) == leading_suit {
                false
            } else {
                Some(better.suit) == leading_suit
            }
        },
    }
}

/// Place in play order of the card that wins the trick.
pub fn winning_card(cards: &Vec<Card>, leading_suit: Option<Suit>, trump_suit: Option<Suit>) -> (w:
    usize)
    requires
        cards@.len() > 0,
    ensures
        w == winning_place(cards@, leading_suit, trump_suit, cards@.len() as int),
        w < cards@.len(),
{
    let mut winning: usize = 0;
    let mut i: usize = 1;
    while i < cards.len()
        invariant
            1 <= i <= cards.len(),
            winning < i,
            winning == winning_place(cards@, leading_suit, trump_suit, i as int),
        decreases cards.len() - i,
    {
        if is_better_card(&cards[winning], &cards[i], leading_suit, trump_suit) {
            winning = i;
        }
        i += 1;
    }
    winning
}

/// The leading suit is unique: the cards played determine it.
pub proof fn leading_suit_unique(cards: Seq<Card>, a: Option<Suit>, b: Option<Suit>)
    requires
        is_leading_suit(cards, a),
        is_leading_suit(cards, b),
    ensures
        a == b,
{
    if a is Some && b is Some {
        let i = choose|i: int| #[trigger] first_normal(cards, i) && cards[i].suit() == a;
        let j = choose|j: int| #[trigger] first_normal(cards, j) && cards[j].suit() == b;
        if i < j {
            assert(cards[i] is SpecialCard);
        } else if j < i {
            assert(cards[j] is SpecialCard);
        }
    } else if a is Some {
        let i = choose|i: int| #[trigger] first_normal(cards, i) && cards[i].suit() == a;
        assert(cards[i] is NormalCard);
    } else if b is Some {
        let j = choose|j: int| #[trigger] first_normal(cards, j) && cards[j].suit() == b;
        assert(cards[j] is NormalCard);
    }
}

/// The cards played determine the leading suit: a suit that meets the
/// definition is the leading suit.
pub proof fn leading_suit_determined(cards: Seq<Card>, suit: Option<Suit>)
    requires
        is_leading_suit(cards, suit),
    ensures
        leading_suit_of(cards) == suit,
{
    leading_suit_unique(cards, suit, leading_suit_of(cards));
}

/// A normal card never takes a trick from a Wizard and always takes it
/// from a Jester, whatever the leading and trump suits.
pub proof fn normal_card_against_special(
    card: Card,
    leading_suit: Option<Suit>,
    trump_suit: Option<Suit>,
)
    requires
        card is NormalCard,
    ensures
        !beats(Card::SpecialCard(SpecialCard::Wizard), card, leading_suit, trump_suit),
        beats(Card::SpecialCard(SpecialCard::Jester), card, leading_suit, trump_suit),
{
}

/// Nothing takes a trick from a Wizard; a Wizard takes it from anything
/// else; a Jester takes it from nothing.
pub proof fn special_cards_rule(
    other: Card,
    leading_suit: Option<Suit>,
    trump_suit: Option<Suit>,
)
    ensures
        !beats(Card::SpecialCard(SpecialCard::Wizard), other, leading_suit, trump_suit),
        !other.is_wizard() ==> beats(
            other,
            Card::SpecialCard(SpecialCard::Wizard),
            leading_suit,
            trump_suit,
        ),
        !beats(other, Card::SpecialCard(SpecialCard::Jester), leading_suit, trump_suit),
{
}

/// The winning place is one of the first `n` places.
pub proof fn winning_place_in_range(
    cards: Seq<Card>,
    leading_suit: Option<Suit>,
    trump_suit: Option<Suit>,
    n: int,
)
    requires
        1 <= n,
    ensures
        0 <= winning_place(cards, leading_suit, trump_suit, n) < n,
    decreases n,
{
    if n > 1 {
        winning_place_in_range(cards, leading_suit, trump_suit, n - 1);
    }
}

/// With a Wizard in the trick, the first Wizard played wins it, wherever
/// it stands in play order.
pub proof fn first_wizard_wins(
    cards: Seq<Card>,
    leading_suit: Option<Suit>,
    trump_suit: Option<Suit>,
    n: int,
    first: int,
)
    requires
        0 <= first < n <= cards.len(),
        cards[first].is_wizard(),
        forall|j: int| 0 <= j < first ==> !(#[trigger] cards[j].is_wizard()),
    ensures
        winning_place(cards, leading_suit, trump_suit, n) == first,
    decreases n,
{
    if n - 1 > first {
        first_wizard_wins(cards, leading_suit, trump_suit, n - 1, first);
    } else if first > 0 {
        winning_place_in_range(cards, leading_suit, trump_suit, n - 1);
        let w = winning_place(cards, leading_suit, trump_suit, n - 1);
        assert(!cards[w].is_wizard());
    }
}

/// A trick of Jesters alone goes to the card that was led.
pub proof fn all_jesters_leader_wins(
    cards: Seq<Card>,
    leading_suit: Option<Suit>,
    trump_suit: Option<Suit>,
    n: int,
)
    requires
        0 <= n <= cards.len(),
        forall|j: int| 0 <= j < n ==> #[trigger] cards[j].is_jester(),
    ensures
        winning_place(cards, leading_suit, trump_suit, n) == 0,
    decreases n,
{
    if n > 1 {
        all_jesters_leader_wins(cards, leading_suit, trump_suit, n - 1);
        assert(cards[n - 1].is_jester());
    }
}

/// With a Wizard in the trick, the trick goes to the player of the first
/// Wizard: as many seats after the leader as cards were played before it.
pub proof fn first_wizard_takes_trick(
    cards: Seq<Card>,
    leading_player: int,
    trump_suit: Option<Suit>,
    player_count: int,
    first: int,
)
    requires
        0 <= first < cards.len(),
        cards[first].is_wizard(),
        forall|j: int| 0 <= j < first ==> !(#[trigger] cards[j].is_wizard()),
    ensures
        trick_winner_of(cards, leading_player, trump_suit, player_count) == (first
            + leading_player) % player_count,
{
    first_wizard_wins(cards, leading_suit_of(cards), trump_suit, cards.len() as int, first);
}

/// A trick of Jesters alone goes to the player who led it.
pub proof fn jesters_trick_goes_to_leader(
    cards: Seq<Card>,
    leading_player: int,
    trump_suit: Option<Suit>,
    player_count: int,
)
    requires
        forall|j: int| 0 <= j < cards.len() ==> #[trigger] cards[j].is_jester(),
        0 <= leading_player < player_count,
    ensures
        trick_winner_of(cards, leading_player, trump_suit, player_count) == leading_player,
{
    all_jesters_leader_wins(cards, leading_suit_of(cards), trump_suit, cards.len() as int);
    vstd::arithmetic::div_mod::lemma_small_mod(leading_player as nat, player_count as nat);
}

} // verus!
