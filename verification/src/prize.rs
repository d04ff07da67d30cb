//! The prize ledger: the exactly-once claim protocol.
//!
//! A claim is valid only on a complete round, by the owner of an unclaimed
//! ticket whose six numbers equal the revealed numbers in order. The
//! ticket's claimed flag flips before the payout amount is reported, and
//! both happen in one indivisible operation, so no ticket can ever be paid
//! twice.

use vstd::prelude::*;
use crate::errors::{err_of, LotteryError};
use crate::events::PrizeAwarded;
use crate::records::{numbers_equal, numbers_in_range, Identity, Ticket};
use crate::round::Lottery;

verus! {

/// Which error a claim attempt reports, or `None` when it succeeds: the
/// round must be complete, the ticket id valid, the ticket unclaimed and
/// owned by the caller, and its numbers must equal the revealed numbers
/// element-wise.
pub open spec fn claim_check(s: Lottery, ticket_id: u64, caller: Identity) -> Option<
    LotteryError,
> {
    if !s.round_complete {
        Some(LotteryError::RoundNotComplete)
    } else if ticket_id >= s.tickets@.len() {
        Some(LotteryError::InvalidTicketId)
    } else if s.tickets@[ticket_id as int].claimed {
        Some(LotteryError::PrizeAlreadyClaimed)
    } else if caller != s.tickets@[ticket_id as int].owner {
        Some(LotteryError::NotTicketOwner)
    } else if s.tickets@[ticket_id as int].numbers@ != s.revealed_numbers@ {
        Some(LotteryError::NotWinningTicket)
    } else {
        None
    }
}

/// How a successful claim changes the state: the ticket's claimed flag
/// flips to true, the prize pool empties, and everything else stays as it
/// was.
pub open spec fn claim_step(pre: Lottery, post: Lottery, ticket_id: u64, caller: Identity) -> bool {
    let t = pre.tickets@[ticket_id as int];
    &&& ticket_id < pre.tickets@.len()
    &&& post.authority == pre.authority
    &&& post.round_id == pre.round_id
    &&& post.reveal_index == pre.reveal_index
    &&& post.revealed_numbers == pre.revealed_numbers
    &&& post.last_reveal_time == pre.last_reveal_time
    &&& post.round_complete == pre.round_complete
    &&& post.accumulated_prize == 0
    &&& post.tickets@ == pre.tickets@.update(
        ticket_id as int,
        Ticket { numbers: t.numbers, owner: t.owner, claimed: true, mint_time: t.mint_time },
    )
    &&& post.listings@ == pre.listings@
}

impl Lottery {
    /// Pays the accumulated prize out to the owner of a winning ticket. On
    /// success the caller is owed the full prior prize balance named in the
    /// event, the pool is empty, and the ticket can never be claimed again.
    pub fn claim_prize(&mut self, ticket_id: u64, caller: Identity) -> (r: Result<
        PrizeAwarded,
        LotteryError,
    >)
        requires
            old(self).wf(),
        ensures
            final(self).wf(),
            err_of(r) == claim_check(*old(self), ticket_id, caller),
            r is Err ==> *final(self) == *old(self),
            r matches Ok(event) ==> {
                &&& claim_step(*old(self), *final(self), ticket_id, caller)
                &&& event.winner == caller
                &&& event.amount == old(self).accumulated_prize
            },
    {
        if !self.round_complete {
            return Err(LotteryError::RoundNotComplete);
        }
        if ticket_id >= self.tickets.len() as u64 {
            return Err(LotteryError::InvalidTicketId);
        }
        let idx = ticket_id as usize;
        if self.tickets[idx].claimed {
            return Err(LotteryError::PrizeAlreadyClaimed);
        }
        if caller != self.tickets[idx].owner {
            return Err(LotteryError::NotTicketOwner);
        }
        if !numbers_equal(&self.tickets[idx].numbers, &self.revealed_numbers) {
            return Err(LotteryError::NotWinningTicket);
        }
        let amount = self.accumulated_prize;
        self.accumulated_prize = 0;
        self.tickets[idx].claimed = true;
        proof {
            let ts = self.tickets@;
            let old_ts = old(self).tickets@;
            assert forall|i: int| 0 <= i < ts.len() implies numbers_in_range(
                (#[trigger] ts[i]).numbers@,
            ) by {
                assert(ts[i].numbers == old_ts[i].numbers);
            }
            assert forall|i: int, j: int|
                0 <= i < ts.len() && 0 <= j < ts.len() && i != j implies (
            #[trigger] ts[i]).numbers@ != (#[trigger] ts[j]).numbers@ by {
                assert(ts[i].numbers == old_ts[i].numbers);
                assert(ts[j].numbers == old_ts[j].numbers);
            }
        }
        Ok(PrizeAwarded { winner: caller, amount })
    }
}

} // verus!
