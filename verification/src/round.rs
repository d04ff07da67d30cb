//! The round state machine: the singleton lottery record, ticket minting,
//! sequential number reveal and round advancement.
//!
//! A round is `Active` while fewer than six numbers are revealed and
//! `Complete` as soon as the sixth is; an explicit advance by the authority
//! starts the next round. Every operation checks all its preconditions
//! before touching any state, so a failed operation leaves the record
//! exactly as it was.

use vstd::prelude::*;
use crate::errors::{err_of, LotteryError};
use crate::events::{NewRoundStarted, NumberRevealed, TicketMinted};
use crate::fees;
use crate::fees::{spec_split, MintSplit};
use crate::records::{
    check_numbers_in_range, find_sequence, numbers_in_range, sequence_taken, Identity, Listing,
    Ticket,
};

verus! {

/// The fixed price of minting one ticket, in native currency units.
pub const MINT_PRICE: u64 = 10_000_000;

/// The authority's fee rate in basis points, applied to mints and sales.
pub const OWNER_FEE_BP: u64 = 100;

/// The marketplace's fee rate in basis points, applied to sales.
pub const MARKETPLACE_FEE_BP: u64 = 200;

/// The minimum time between two reveals, in seconds (two days).
pub const REVEAL_INTERVAL: i64 = 2 * 24 * 60 * 60;

/// The whole state of one deployment: the current round, the prize pool,
/// every ticket ever minted and the marketplace listings.
#[derive(Debug)]
pub struct Lottery {
    /// The deployment authority: the only identity allowed to reveal
    /// numbers and advance rounds, and the receiver of owner fees.
    pub authority: Identity,
    /// Increases by exactly one per round advancement.
    pub round_id: u64,
    /// How many numbers of the current round are revealed, in 0..=6.
    pub reveal_index: u8,
    /// The revealed numbers; meaningful at indices below `reveal_index`.
    pub revealed_numbers: [u8; 6],
    /// When the last reveal happened (or the round started).
    pub last_reveal_time: i64,
    /// True exactly when all six numbers are revealed.
    pub round_complete: bool,
    /// The prize pool, fed by mint contributions and emptied by a claim.
    pub accumulated_prize: u64,
    /// Every ticket ever minted; a ticket's id is its index here.
    pub tickets: Vec<Ticket>,
    /// The marketplace listings, at most one row per ticket id.
    pub listings: Vec<Listing>,
}

impl Lottery {
    /// The well-formedness invariant that every operation preserves:
    /// the reveal counter stays in range and agrees with the completion
    /// flag, revealed numbers lie in 0..=99, every ticket's numbers lie in
    /// 0..=99, no two tickets carry the same sequence, and listings are
    /// unique per ticket id, refer to existing tickets and carry positive
    /// prices.
    pub open spec fn wf(self) -> bool {
        &&& self.reveal_index <= 6
        &&& (self.round_complete <==> self.reveal_index == 6)
        &&& forall|i: int|
            0 <= i < self.reveal_index ==> self.revealed_numbers@[i] <= 99
        &&& forall|i: int|
            0 <= i < self.tickets@.len() ==> numbers_in_range(
                (#[trigger] self.tickets@[i]).numbers@,
            )
        &&& forall|i: int, j: int|
            0 <= i < self.tickets@.len() && 0 <= j < self.tickets@.len() && i != j
                ==> (#[trigger] self.tickets@[i]).numbers@ != (#[trigger] self.tickets@[j]).numbers@
        &&& forall|i: int|
            0 <= i < self.listings@.len() ==> (#[trigger] self.listings@[i]).ticket_id
                < self.tickets@.len()
        &&& forall|i: int|
            0 <= i < self.listings@.len() ==> (#[trigger] self.listings@[i]).price > 0
        &&& forall|i: int, j: int|
            0 <= i < self.listings@.len() && 0 <= j < self.listings@.len() && i != j
                ==> (#[trigger] self.listings@[i]).ticket_id
                != (#[trigger] self.listings@[j]).ticket_id
    }

    /// Creates the deployment's initial state: round 0 active with nothing
    /// revealed, an empty prize pool, no tickets and no listings.
    pub fn initialize(authority: Identity, now: i64) -> (l: Lottery)
        ensures
            l.wf(),
            l.authority == authority,
            l.round_id == 0,
            l.reveal_index == 0,
            forall|i: int| 0 <= i < 6 ==> l.revealed_numbers@[i] == 0,
            !l.round_complete,
            l.last_reveal_time == now,
            l.accumulated_prize == 0,
            l.tickets@.len() == 0,
            l.listings@.len() == 0,
    {
        Lottery {
            authority,
            round_id: 0,
            reveal_index: 0,
            revealed_numbers: [0u8, 0u8, 0u8, 0u8, 0u8, 0u8],
            last_reveal_time: now,
            round_complete: false,
            accumulated_prize: 0,
            tickets: Vec::new(),
            listings: Vec::new(),
        }
    }
}

/// The share of the mint price that the authority keeps on every mint.
pub open spec fn mint_owner_fee() -> int {
    spec_split(MINT_PRICE as int, OWNER_FEE_BP as int)
}

/// The share of the mint price that goes into the prize pool on every mint.
pub open spec fn mint_prize_contribution() -> int {
    MINT_PRICE - mint_owner_fee()
}

/// Which error a mint attempt reports, or `None` when it succeeds: the
/// numbers must lie in 0..=99, the exact sequence must be fresh, the payment
/// must cover the mint price, and the prize pool must have room for the
/// contribution.
pub open spec fn mint_check(s: Lottery, numbers: Seq<u8>, payment_amount: u64) -> Option<
    LotteryError,
> {
    if !numbers_in_range(numbers) {
        Some(LotteryError::InvalidNumberRange)
    } else if sequence_taken(s.tickets@, numbers) {
        Some(LotteryError::DuplicateSequence)
    } else if payment_amount < MINT_PRICE {
        Some(LotteryError::InsufficientPayment)
    } else if s.accumulated_prize + mint_prize_contribution() > u64::MAX {
        Some(LotteryError::ArithmeticOverflow)
    } else {
        None
    }
}

/// How a successful mint changes the state: the prize pool grows by the
/// prize contribution and one fresh unclaimed ticket owned by `payer` is
/// appended; everything else stays as it was.
pub open spec fn mint_step(
    pre: Lottery,
    post: Lottery,
    numbers: [u8; 6],
    payer: Identity,
    now: i64,
) -> bool {
    &&& post.authority == pre.authority
    &&& post.round_id == pre.round_id
    &&& post.reveal_index == pre.reveal_index
    &&& post.revealed_numbers == pre.revealed_numbers
    &&& post.last_reveal_time == pre.last_reveal_time
    &&& post.round_complete == pre.round_complete
    &&& post.accumulated_prize == pre.accumulated_prize + mint_prize_contribution()
    &&& post.tickets@ == pre.tickets@.push(
        Ticket { numbers, owner: payer, claimed: false, mint_time: now },
    )
    &&& post.listings@ == pre.listings@
}

/// Which error a reveal attempt reports, or `None` when it succeeds: only
/// the authority may reveal, the round must still be active, and the reveal
/// interval must have elapsed since the last reveal.
pub open spec fn reveal_check(s: Lottery, caller: Identity, now: i64) -> Option<LotteryError> {
    if caller != s.authority {
        Some(LotteryError::Unauthorized)
    } else if s.round_complete {
        Some(LotteryError::RoundComplete)
    } else if now < s.last_reveal_time + REVEAL_INTERVAL {
        Some(LotteryError::TooEarlyForReveal)
    } else {
        None
    }
}

/// How a successful reveal changes the state: `entropy % 100` is written at
/// position `reveal_index`, the counter advances by exactly one, the reveal
/// clock moves to `now`, and the round completes exactly when the counter
/// reaches six; tickets, listings and the prize pool stay as they were.
pub open spec fn reveal_step(pre: Lottery, post: Lottery, entropy: u64, now: i64) -> bool {
    &&& post.authority == pre.authority
    &&& post.round_id == pre.round_id
    &&& post.reveal_index == pre.reveal_index + 1
    &&& post.revealed_numbers@ == pre.revealed_numbers@.update(
        pre.reveal_index as int,
        (entropy % 100) as u8,
    )
    &&& post.last_reveal_time == now
    &&& (post.round_complete <==> post.reveal_index == 6)
    &&& post.accumulated_prize == pre.accumulated_prize
    &&& post.tickets@ == pre.tickets@
    &&& post.listings@ == pre.listings@
}

/// Which error a round advancement reports, or `None` when it succeeds:
/// only the authority may advance, and only once the round is complete.
pub open spec fn new_round_check(s: Lottery, caller: Identity) -> Option<LotteryError> {
    if caller != s.authority {
        Some(LotteryError::Unauthorized)
    } else if !s.round_complete {
        Some(LotteryError::RoundNotComplete)
    } else {
        None
    }
}

/// How a successful round advancement changes the state: the round id
/// increases by one, the reveal counter and the revealed numbers are
/// cleared, and the reveal clock moves to `now`. The prize pool is left
/// untouched, so an unclaimed prize rolls forward into the new round;
/// tickets and listings stay as they were.
pub open spec fn new_round_step(pre: Lottery, post: Lottery, now: i64) -> bool {
    &&& post.authority == pre.authority
    &&& post.round_id == pre.round_id + 1
    &&& post.reveal_index == 0
    &&& forall|i: int| 0 <= i < 6 ==> post.revealed_numbers@[i] == 0
    &&& post.last_reveal_time == now
    &&& !post.round_complete
    &&& post.accumulated_prize == pre.accumulated_prize
    &&& post.tickets@ == pre.tickets@
    &&& post.listings@ == pre.listings@
}

impl Lottery {
    /// Mints a ticket carrying `numbers` for `payer` against a payment of
    /// `payment_amount` at time `now`. On success the authority is owed the
    /// returned owner fee, the prize pool has grown by the returned prize
    /// contribution, and the event names the new ticket's id.
    pub fn mint_ticket(
        &mut self,
        numbers: [u8; 6],
        payer: Identity,
        payment_amount: u64,
        now: i64,
    ) -> (r: Result<(TicketMinted, MintSplit), LotteryError>)
        requires
            old(self).wf(),
        ensures
            final(self).wf(),
            err_of(r) == mint_check(*old(self), numbers@, payment_amount),
            r is Err ==> *final(self) == *old(self),
            r matches Ok((event, ms)) ==> {
                &&& mint_step(*old(self), *final(self), numbers, payer, now)
                &&& event.ticket_id == old(self).tickets@.len()
                &&& event.owner == payer
                &&& event.numbers == numbers
                &&& ms.owner_fee == mint_owner_fee()
                &&& ms.prize_contribution == mint_prize_contribution()
            },
    {
        if !check_numbers_in_range(&numbers) {
            return Err(LotteryError::InvalidNumberRange);
        }
        if find_sequence(&self.tickets, &numbers) {
            return Err(LotteryError::DuplicateSequence);
        }
        if payment_amount < MINT_PRICE {
            return Err(LotteryError::InsufficientPayment);
        }
        proof {
            fees::lemma_split_le_price(MINT_PRICE as int, OWNER_FEE_BP as int);
        }
        let ms = match fees::mint_contribution(MINT_PRICE, OWNER_FEE_BP) {
            Ok(ms) => ms,
            Err(e) => {
                // Unreachable: the fee rate is far below 10000 basis points.
                return Err(e);
            },
        };
        if self.accumulated_prize > u64::MAX - ms.prize_contribution {
            return Err(LotteryError::ArithmeticOverflow);
        }
        let ticket_id = self.tickets.len() as u64;
        self.accumulated_prize = self.accumulated_prize + ms.prize_contribution;
        self.tickets.push(Ticket { numbers, owner: payer, claimed: false, mint_time: now });
        proof {
            let ts = self.tickets@;
            let old_ts = old(self).tickets@;
            assert forall|i: int| 0 <= i < ts.len() implies numbers_in_range(
                (#[trigger] ts[i]).numbers@,
            ) by {
                if i < old_ts.len() {
                    assert(ts[i] == old_ts[i]);
                } else {
                    assert(ts[i].numbers@ == numbers@);
                }
            }
            assert forall|i: int, j: int|
                0 <= i < ts.len() && 0 <= j < ts.len() && i != j implies (
            #[trigger] ts[i]).numbers@ != (#[trigger] ts[j]).numbers@ by {
                if i < old_ts.len() && j < old_ts.len() {
                    assert(old_ts[i].numbers@ != old_ts[j].numbers@);
                } else if i < old_ts.len() {
                    assert(old_ts[i].numbers@ != numbers@);
                    assert(ts[j].numbers@ == numbers@);
                } else {
                    assert(old_ts[j].numbers@ != numbers@);
                    assert(ts[i].numbers@ == numbers@);
                }
            }
        }
        Ok((TicketMinted { ticket_id, owner: payer, numbers }, ms))
    }

    /// Reveals the next winning number, derived as `entropy % 100` from the
    /// externally supplied entropy word, at time `now`. Only the authority
    /// may reveal, at most once per reveal interval, and only while the
    /// round is active; the sixth reveal completes the round.
    pub fn reveal_number(&mut self, caller: Identity, entropy: u64, now: i64) -> (r: Result<
        NumberRevealed,
        LotteryError,
    >)
        requires
            old(self).wf(),
        ensures
            final(self).wf(),
            err_of(r) == reveal_check(*old(self), caller, now),
            r is Err ==> *final(self) == *old(self),
            r matches Ok(event) ==> {
                &&& reveal_step(*old(self), *final(self), entropy, now)
                &&& event.round == old(self).round_id
                &&& event.number == (entropy % 100) as u8
                &&& event.reveal_index == old(self).reveal_index
            },
    {
        if caller != self.authority {
            return Err(LotteryError::Unauthorized);
        }
        if self.round_complete {
            return Err(LotteryError::RoundComplete);
        }
        if (now as i128) < (self.last_reveal_time as i128) + (REVEAL_INTERVAL as i128) {
            return Err(LotteryError::TooEarlyForReveal);
        }
        let number = (entropy % 100) as u8;
        let idx = self.reveal_index as usize;
        self.revealed_numbers[idx] = number;
        let event = NumberRevealed {
            round: self.round_id,
            number,
            reveal_index: self.reveal_index,
        };
        self.reveal_index = self.reveal_index + 1;
        self.last_reveal_time = now;
        if self.reveal_index == 6 {
            self.round_complete = true;
        }
        proof {
            assert forall|i: int| 0 <= i < self.reveal_index implies self.revealed_numbers@[i]
                <= 99 by {
                if i < old(self).reveal_index {
                    assert(self.revealed_numbers@[i] == old(self).revealed_numbers@[i]);
                }
            }
        }
        Ok(event)
    }

    /// Starts the next round at time `now` once the current one is
    /// complete. The revealed numbers are cleared and the prize pool rolls
    /// forward untouched. `now` may not lie before the last reveal, and the
    /// round counter must have room to advance.
    pub fn start_new_round(&mut self, caller: Identity, now: i64) -> (r: Result<
        NewRoundStarted,
        LotteryError,
    >)
        requires
            old(self).wf(),
            old(self).round_id < u64::MAX,
            now >= old(self).last_reveal_time,
        ensures
            final(self).wf(),
            err_of(r) == new_round_check(*old(self), caller),
            r is Err ==> *final(self) == *old(self),
            r matches Ok(event) ==> {
                &&& new_round_step(*old(self), *final(self), now)
                &&& event.round == final(self).round_id
            },
    {
        if caller != self.authority {
            return Err(LotteryError::Unauthorized);
        }
        if !self.round_complete {
            return Err(LotteryError::RoundNotComplete);
        }
        self.round_id = self.round_id + 1;
        self.reveal_index = 0;
        self.revealed_numbers = [0u8, 0u8, 0u8, 0u8, 0u8, 0u8];
        self.round_complete = false;
        self.last_reveal_time = now;
        Ok(NewRoundStarted { round: self.round_id })
    }
}

} // verus!
