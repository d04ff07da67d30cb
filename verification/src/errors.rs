//! The error kinds that the lottery and marketplace operations report.
//!
//! Every failure is local and synchronous: an operation that returns one of
//! these errors leaves all state unchanged.

use vstd::prelude::*;

verus! {

/// Why an operation was refused. Each operation's contract states exactly
/// which error comes back on which inputs.
#[derive(Clone, Copy, Debug, PartialEq, Eq, Structural)]
pub enum LotteryError {
    /// A ticket number lies outside the accepted range.
    InvalidNumberRange,
    /// The exact 6-number sequence was already minted.
    DuplicateSequence,
    /// The payment offered for a mint is below the mint price.
    InsufficientPayment,
    /// The buyer's funds do not cover the listing price.
    InsufficientFunds,
    /// All numbers of the round are already revealed.
    RoundComplete,
    /// The round still has numbers left to reveal.
    RoundNotComplete,
    /// The reveal interval since the last reveal has not elapsed yet.
    TooEarlyForReveal,
    /// No ticket exists under the given id.
    InvalidTicketId,
    /// The ticket's prize was already claimed.
    PrizeAlreadyClaimed,
    /// The caller does not own the ticket.
    NotTicketOwner,
    /// The ticket's numbers do not match the revealed numbers.
    NotWinningTicket,
    /// The caller is not the deployment authority.
    Unauthorized,
    /// A listing price must be positive.
    InvalidPrice,
    /// No active listing exists for the ticket.
    TicketNotListed,
    /// The caller is not the seller of the listing.
    NotSeller,
    /// A seller cannot buy their own listing.
    CannotBuyOwnTicket,
    /// A fee computation would overflow or underflow.
    ArithmeticOverflow,
}

/// The error of `r`, if any: `None` exactly when `r` is `Ok`. Operation
/// contracts equate this with the operation's check function, pinning both
/// whether the operation succeeds and which error it reports.
pub open spec fn err_of<T>(r: Result<T, LotteryError>) -> Option<LotteryError> {
    match r {
        Ok(_) => None,
        Err(e) => Some(e),
    }
}

} // verus!
