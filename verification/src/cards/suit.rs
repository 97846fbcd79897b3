use vstd::prelude::*;
use vstd::string::StringExecFns;

verus! {

/// The four suits. Suits carry no order among themselves; the index is only
/// a position in the listing used to enumerate them.
#[derive(Copy, Clone, Debug, PartialEq, Eq, Hash, Structural)]
pub enum Suit {
    Club,
    Diamond,
    Spade,
    Heart,
}

impl Suit {
    /// Position of the suit in the listing Club, Diamond, Spade, Heart.
    pub open spec fn index(self) -> int {
        match self {
            Suit::Club => 0,
            Suit::Diamond => 1,
            Suit::Spade => 2,
            Suit::Heart => 3,
        }
    }

    /// The suit at a position of the listing.
    pub open spec fn at(i: int) -> Suit {
        if i == 0 {
            Suit::Club
        } else if i == 1 {
            Suit::Diamond
        } else if i == 2 {
            Suit::Spade
        } else {
            Suit::Heart
        }
    }

    /// The letter that stands for the suit in a card token.
    pub open spec fn letter(self) -> char {
        match self {
            Suit::Club => 'C',
            Suit::Diamond => 'D',
            Suit::Spade => 'S',
            Suit::Heart => 'H',
        }
    }

    /// The suit that a name stands for, if it is the name of a suit.
    pub open spec fn of_name(name: Seq<char>) -> Option<Suit> {
        if name == "Club"@ {
            Some(Suit::Club)
        } else if name == "Diamond"@ {
            Some(Suit::Diamond)
        } else if name == "Spade"@ {
            Some(Suit::Spade)
        } else if name == "Heart"@ {
            Some(Suit::Heart)
        } else {
            None
        }
    }

    /// The name of the suit.
    pub open spec fn name(self) -> Seq<char> {
        match self {
            Suit::Club => "Club"@,
            Suit::Diamond => "Diamond"@,
            Suit::Spade => "Spade"@,
            Suit::Heart => "Heart"@,
        }
    }

    /// The name of the suit, as it stands in a message.
    pub fn to_name(self) -> (r: &'static str)
        ensures
            r@ == self.name(),
    {
        match self {
            Suit::Club => "Club",
            Suit::Diamond => "Diamond",
            Suit::Spade => "Spade",
            Suit::Heart => "Heart",
        }
    }

    /// The suit that a name stands for, if it is the name of a suit.
    pub fn from_name(name: &str) -> (r: Option<Suit>)
        ensures
            r == Suit::of_name(name@),
    {
        let text = String::from_str(name);
        if text == String::from_str("Club") {
            Some(Suit::Club)
        } else if text == String::from_str("Diamond") {
            Some(Suit::Diamond)
        } else if text == String::from_str("Spade") {
            Some(Suit::Spade)
        } else if text == String::from_str("Heart") {
            Some(Suit::Heart)
        } else {
            None
        }
    }

    /// The suit at a position of the listing.
    pub fn from_index(i: usize) -> (s: Suit)
        requires
            i < 4,
        ensures
            s == Suit::at(i as int),
            s.index() == i,
    {
        if i == 0 {
            Suit::Club
        } else if i == 1 {
            Suit::Diamond
        } else if i == 2 {
            Suit::Spade
        } else {
            Suit::Heart
        }
    }

    /// The suit that a token letter stands for, if any.
    pub fn from_letter(c: char) -> (r: Option<Suit>)
        ensures
            match r {
                Some(s) => s.letter() == c,
                None => forall|s: Suit| s.letter() != c,
            },
    {
        if c == 'C' {
            Some(Suit::Club)
        } else if c == 'D' {
            Some(Suit::Diamond)
        } else if c == 'S' {
            Some(Suit::Spade)
        } else if c == 'H' {
            Some(Suit::Heart)
        } else {
            None
        }
    }

    /// The one-letter text of the suit.
    pub fn to_str(self) -> (r: &'static str)
        ensures
            r@ == seq![self.letter()],
    {
        proof {
            reveal_strlit("C");
            reveal_strlit("D");
            reveal_strlit("S");
            reveal_strlit("H");
        }
        let r = match self {
            Suit::Club => "C",
            Suit::Diamond => "D",
            Suit::Spade => "S",
            Suit::Heart => "H",
        };
        assert(r@ =~= seq![self.letter()]);
        r
    }
}

/// The names of the suits are distinct, so a name stands for its suit.
pub proof fn name_stands_for_its_suit(suit: Suit)
    ensures
        Suit::of_name(suit.name()) == Some(suit),
{
    reveal_strlit("Club");
    reveal_strlit("Diamond");
    reveal_strlit("Spade");
    reveal_strlit("Heart");
    assert("Club"@.len() == 4);
    assert("Diamond"@.len() == 7);
    assert("Spade"@[0] == 'S');
    assert("Heart"@[0] == 'H');
}

} // verus!
