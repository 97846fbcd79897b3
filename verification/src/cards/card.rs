use vstd::prelude::*;
use vstd::string::StringExecFns;
use vstd::string::StrSliceExecFns;
use crate::cards::normal_card::NormalCard;
use crate::cards::rank::Rank;
use crate::cards::special_card::SpecialCard;
use crate::cards::suit::Suit;

verus! {

/// Any card of the game: one of the 52 normal cards, a Wizard or a Jester.
#[derive(Copy, Clone, Debug, PartialEq, Eq, Hash, Structural)]
pub enum Card {
    NormalCard(NormalCard),
    SpecialCard(SpecialCard),
}

/// A text that is not the token of any card.
#[derive(Copy, Clone, Debug, PartialEq, Eq)]
pub struct UnknownCard;

impl Card {
    /// Canonical text of the card: "Wizard", "Jester", or rank and suit.
    pub open spec fn token(self) -> Seq<char> {
        match self {
            Card::SpecialCard(SpecialCard::Wizard) => seq!['W', 'i', 'z', 'a', 'r', 'd'],
            Card::SpecialCard(SpecialCard::Jester) => seq!['J', 'e', 's', 't', 'e', 'r'],
            Card::NormalCard(n) => n.token(),
        }
    }

    pub open spec fn is_wizard(self) -> bool {
        self == Card::SpecialCard(SpecialCard::Wizard)
    }

    pub open spec fn is_jester(self) -> bool {
        self == Card::SpecialCard(SpecialCard::Jester)
    }

    /// The suit of a normal card; a special card has none.
    pub open spec fn suit(self) -> Option<Suit> {
        match self {
            Card::NormalCard(n) => Some(n.suit),
            Card::SpecialCard(_) => None,
        }
    }

    /// Encodes the card as its canonical text.
    pub fn to_token(&self) -> (s: String)
        ensures
            s@ == self.token(),
    {
        match self {
            Card::SpecialCard(SpecialCard::Wizard) => {
                proof {
                    reveal_strlit("Wizard");
                }
                let s = String::from_str("Wizard");
                assert(s@ =~= self.token());
                s
            },
            Card::SpecialCard(SpecialCard::Jester) => {
                proof {
                    reveal_strlit("Jester");
                }
                let s = String::from_str("Jester");
                assert(s@ =~= self.token());
                s
            },
            Card::NormalCard(n) => n.to_string(),
        }
    }

    /// Decodes a canonical text. Succeeds exactly on the 54 card tokens and
    /// then returns the card that the text encodes.
    pub fn from_token(s: &str) -> (r: Result<Card, UnknownCard>)
        ensures
            match r {
                Ok(c) => c.token() == s@,
                Err(_) => forall|c: Card| c.token() != s@,
            },
    {
        let n = s.unicode_len();
        if n == 6 {
            let wizard = s.get_char(0) == 'W' && s.get_char(1) == 'i' && s.get_char(2) == 'z'
                && s.get_char(3) == 'a' && s.get_char(4) == 'r' && s.get_char(5) == 'd';
            let jester = s.get_char(0) == 'J' && s.get_char(1) == 'e' && s.get_char(2) == 's'
                && s.get_char(3) == 't' && s.get_char(4) == 'e' && s.get_char(5) == 'r';
            if wizard {
                let c = Card::SpecialCard(SpecialCard::Wizard);
                assert(c.token() =~= s@);
                Ok(c)
            } else if jester {
                let c = Card::SpecialCard(SpecialCard::Jester);
                assert(c.token() =~= s@);
                Ok(c)
            } else {
                proof {
                    assert forall|c: Card| c.token() != s@ by {
                        lemma_token_shape(c);
                        if c.token() == s@ {
                            assert(forall|i: int| 0 <= i < 6 ==> c.token()[i] == s@[i]);
                        }
                    }
                }
                Err(UnknownCard)
            }
        } else if n == 2 {
            let first = s.get_char(0);
            let second = s.get_char(1);
            match (Rank::from_char(first), Suit::from_letter(second)) {
                (Some(rank), Some(suit)) => {
                    let c = Card::NormalCard(NormalCard { suit, rank });
                    assert(c.token() =~= s@);
                    Ok(c)
                },
                _ => {
                    proof {
                        assert forall|c: Card| c.token() != s@ by {
                            lemma_token_shape(c);
                            if c.token() == s@ {
                                let k = c->NormalCard_0;
                                assert(k.rank.token() =~= seq![s@[0]]);
                                assert(k.suit.letter() == s@[1]);
                            }
                        }
                    }
                    Err(UnknownCard)
                },
            }
        } else if n == 3 {
            let ten = s.get_char(0) == '1' && s.get_char(1) == '0';
            match Suit::from_letter(s.get_char(2)) {
                Some(suit) if ten => {
                    let c = Card::NormalCard(NormalCard { suit, rank: Rank::Ten });
                    assert(c.token() =~= s@);
                    Ok(c)
                },
                _ => {
                    proof {
                        assert forall|c: Card| c.token() != s@ by {
                            lemma_token_shape(c);
                            if c.token() == s@ {
                                let k = c->NormalCard_0;
                                assert(k.rank == Rank::Ten);
                                assert(k.rank.token()[0] == s@[0]);
                                assert(k.rank.token()[1] == s@[1]);
                                assert(k.suit.letter() == s@[2]);
                            }
                        }
                    }
                    Err(UnknownCard)
                },
            }
        } else {
            proof {
                assert forall|c: Card| c.token() != s@ by {
                    lemma_token_shape(c);
                }
            }
            Err(UnknownCard)
        }
    }
}

/// Shape of a token: a special card takes six characters; a normal card
/// takes its rank's one or two characters and then its suit's letter.
pub proof fn lemma_token_shape(c: Card)
    ensures
        c is SpecialCard ==> c.token().len() == 6,
        c is NormalCard ==> c.token().len() == c->NormalCard_0.rank.token().len() + 1,
        c is NormalCard ==> (c->NormalCard_0.rank == Rank::Ten <==> c.token().len() == 3),
        c is NormalCard ==> (c->NormalCard_0.rank != Rank::Ten <==> c.token().len() == 2),
        c is NormalCard ==> c.token().last() == c->NormalCard_0.suit.letter(),
        c is NormalCard ==> c.token().drop_last() =~= c->NormalCard_0.rank.token(),
        c.is_wizard() ==> c.token()[0] == 'W',
        c.is_jester() ==> c.token()[0] == 'J' && c.token()[1] == 'e',
{
}

/// Distinct cards have distinct tokens, so decoding the token of a card
/// gives that card back.
pub proof fn token_injective(a: Card, b: Card)
    requires
        a.token() == b.token(),
    ensures
        a == b,
{
    lemma_token_shape(a);
    lemma_token_shape(b);
    match (a, b) {
        (Card::NormalCard(x), Card::NormalCard(y)) => {
            assert(x.suit.letter() == y.suit.letter());
            assert(x.rank.token() =~= y.rank.token());
            assert(x.rank.token()[0] == y.rank.token()[0]);
        },
        (Card::SpecialCard(x), Card::SpecialCard(y)) => {
            assert(a.token()[0] == b.token()[0]);
        },
        _ => {},
    }
}

/// Encoding a card and decoding the text yields the card: whatever card
/// `decoded` a decoder returns for the token of `card` under the contract
/// of `Card::from_token`, it is `card`.
pub proof fn token_round_trip(card: Card, decoded: Result<Card, UnknownCard>)
    requires
        match decoded {
            Ok(c) => c.token() == card.token(),
            Err(_) => forall|c: Card| c.token() != card.token(),
        },
    ensures
        decoded == Ok::<Card, UnknownCard>(card),
{
    match decoded {
        Ok(c) => {
            token_injective(c, card);
        },
        Err(_) => {
            assert(card.token() == card.token());
        },
    }
}

} // verus!
