//! The notification events that successful operations emit.
//!
//! Each mutating operation returns exactly one of these on success, carrying
//! the fields that external observers and the value-transfer runtime need.

use vstd::prelude::*;
use crate::records::Identity;

verus! {

/// A new ticket was minted.
#[derive(Clone, Copy, Debug)]
pub struct TicketMinted {
    pub ticket_id: u64,
    pub owner: Identity,
    pub numbers: [u8; 6],
}

/// The next winning number of the round was revealed at position
/// `reveal_index`.
#[derive(Clone, Copy, Debug, PartialEq, Eq, Structural)]
pub struct NumberRevealed {
    pub round: u64,
    pub number: u8,
    pub reveal_index: u8,
}

/// The accumulated prize was paid out to a winning ticket's owner.
#[derive(Clone, Copy, Debug, PartialEq, Eq, Structural)]
pub struct PrizeAwarded {
    pub winner: Identity,
    pub amount: u64,
}

/// A completed round was replaced by a fresh one.
#[derive(Clone, Copy, Debug, PartialEq, Eq, Structural)]
pub struct NewRoundStarted {
    pub round: u64,
}

/// A ticket was listed (or re-listed) on the marketplace.
#[derive(Clone, Copy, Debug, PartialEq, Eq, Structural)]
pub struct TicketListed {
    pub ticket_id: u64,
    pub seller: Identity,
    pub price: u64,
}

/// An active listing was withdrawn by its seller.
#[derive(Clone, Copy, Debug, PartialEq, Eq, Structural)]
pub struct TicketDelisted {
    pub ticket_id: u64,
    pub seller: Identity,
}

/// A listed ticket was sold; ownership moved to `buyer`.
#[derive(Clone, Copy, Debug, PartialEq, Eq, Structural)]
pub struct TicketSold {
    pub ticket_id: u64,
    pub seller: Identity,
    pub buyer: Identity,
    pub price: u64,
}

} // verus!
