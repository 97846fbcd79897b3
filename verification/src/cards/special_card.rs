use vstd::prelude::*;

verus! {

/// The two special cards: a Wizard wins the trick it is played in, a Jester
/// loses it.
#[derive(Copy, Clone, Debug, PartialEq, Eq, Hash, Structural)]
pub enum SpecialCard {
    Wizard,
    Jester,
}

} // verus!
