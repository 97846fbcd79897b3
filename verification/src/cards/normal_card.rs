use vstd::prelude::*;
use vstd::string::StringExecFns;
use crate::cards::rank::Rank;
use crate::cards::suit::Suit;

verus! {

/// A card of one of the four suits.
#[derive(Copy, Clone, Debug, PartialEq, Eq, Hash, Structural)]
pub struct NormalCard {
    pub suit: Suit,
    pub rank: Rank,
}

impl NormalCard {
    /// Canonical text of the card: the rank's token, then the suit's letter.
    pub open spec fn token(self) -> Seq<char> {
        self.rank.token().push(self.suit.letter())
    }

    /// The canonical text of the card, such as "10H" or "AC".
    pub fn to_string(&self) -> (s: String)
        ensures
            s@ == self.token(),
    {
        let mut s = String::from_str(self.rank.to_str());
        s.append(self.suit.to_str());
        assert(s@ =~= self.token());
        s
    }
}

} // verus!
