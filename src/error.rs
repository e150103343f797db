use vstd::prelude::*;

verus! {

/// Every way an operation of this library can fail.
#[derive(Debug, Clone, Copy, PartialEq, Eq, Structural)]
pub enum CatanError {
    /// The bank cannot cover a requested resource distribution.
    InsufficientSupply,
    /// No development cards of any kind remain.
    Exhausted,
    /// A trade or game operation was attempted outside its legal state.
    InvalidState,
    /// No trade is registered under the given identifier.
    TradeNotFound,
    /// The trade partner was queried before a recipient was confirmed.
    NoPartner,
    /// A party lacks the bundle it owes when a trade is settled.
    InsufficientFunds,
    /// A subtraction would leave a count below zero.
    Underflow,
    /// A count would exceed the largest value a `usize` can hold.
    Overflow,
    /// No player with the given colour takes part in the game.
    PlayerNotFound,
}

} // verus!
