//! The laws the state machine guarantees across operations: properties of
//! every reachable state, and of sequences of operations, proved once and
//! for all over the step relations that the operations' own contracts
//! establish.

use vstd::prelude::*;
use crate::errors::LotteryError;
use crate::market::{buy_step, delist_step, list_step};
use crate::prize::{claim_check, claim_step};
use crate::records::{numbers_in_range, Identity};
use crate::round::{mint_step, new_round_step, reveal_check, reveal_step, Lottery};

verus! {

/// One operation happened between `pre` and `post`: a successful mint,
/// reveal, round advancement, claim, listing, delisting or purchase with
/// some arguments, or a failed operation, which changes nothing.
pub open spec fn lottery_step(pre: Lottery, post: Lottery) -> bool {
    ||| exists|numbers: [u8; 6], payer: Identity, now: i64|
        mint_step(pre, post, numbers, payer, now)
    ||| exists|entropy: u64, now: i64| reveal_step(pre, post, entropy, now)
    ||| exists|now: i64| new_round_step(pre, post, now)
    ||| exists|ticket_id: u64, caller: Identity| claim_step(pre, post, ticket_id, caller)
    ||| exists|ticket_id: u64, price: u64, caller: Identity|
        list_step(pre, post, ticket_id, price, caller)
    ||| exists|ticket_id: u64| delist_step(pre, post, ticket_id)
    ||| exists|ticket_id: u64, buyer: Identity| buy_step(pre, post, ticket_id, buyer)
    ||| post == pre
}

/// Every number of every ticket in a well-formed state lies in 0..=99.
pub proof fn law_ticket_numbers_in_range(l: Lottery)
    requires
        l.wf(),
    ensures
        forall|i: int, j: int|
            0 <= i < l.tickets@.len() && 0 <= j < 6 ==> #[trigger] l.tickets@[i].numbers@[j] <= 99,
{
    assert forall|i: int, j: int|
        0 <= i < l.tickets@.len() && 0 <= j < 6 implies #[trigger] l.tickets@[i].numbers@[j]
        <= 99 by {
        assert(numbers_in_range(l.tickets@[i].numbers@));
    }
}

/// No two tickets in a well-formed state carry the same 6-number sequence.
pub proof fn law_no_duplicate_sequences(l: Lottery)
    requires
        l.wf(),
    ensures
        forall|i: int, j: int|
            0 <= i < l.tickets@.len() && 0 <= j < l.tickets@.len() && i != j ==> (
            #[trigger] l.tickets@[i]).numbers@ != (#[trigger] l.tickets@[j]).numbers@,
{
}

/// At most one listing row exists per ticket id in a well-formed state.
pub proof fn law_one_listing_per_ticket(l: Lottery)
    requires
        l.wf(),
    ensures
        forall|i: int, j: int|
            0 <= i < l.listings@.len() && 0 <= j < l.listings@.len() && i != j ==> (
            #[trigger] l.listings@[i]).ticket_id != (#[trigger] l.listings@[j]).ticket_id,
{
}

/// A claimed ticket stays claimed: no operation whatsoever resets the flag.
pub proof fn law_claimed_is_permanent(pre: Lottery, post: Lottery, i: int)
    requires
        lottery_step(pre, post),
        0 <= i < pre.tickets@.len(),
        pre.tickets@[i].claimed,
    ensures
        pre.tickets@.len() <= post.tickets@.len(),
        post.tickets@[i].claimed,
{
    law_tickets_only_grow(pre, post, i);
}

/// A ticket's numbers never change after minting, whatever operations run.
pub proof fn law_numbers_are_permanent(pre: Lottery, post: Lottery, i: int)
    requires
        lottery_step(pre, post),
        0 <= i < pre.tickets@.len(),
    ensures
        pre.tickets@.len() <= post.tickets@.len(),
        post.tickets@[i].numbers == pre.tickets@[i].numbers,
{
    law_tickets_only_grow(pre, post, i);
}

/// The common core of the two permanence laws: any single operation keeps
/// every existing ticket's numbers, mint time and (once set) claimed flag.
proof fn law_tickets_only_grow(pre: Lottery, post: Lottery, i: int)
    requires
        lottery_step(pre, post),
        0 <= i < pre.tickets@.len(),
    ensures
        pre.tickets@.len() <= post.tickets@.len(),
        post.tickets@[i].numbers == pre.tickets@[i].numbers,
        post.tickets@[i].mint_time == pre.tickets@[i].mint_time,
        pre.tickets@[i].claimed ==> post.tickets@[i].claimed,
{
    if exists|numbers: [u8; 6], payer: Identity, now: i64|
        mint_step(pre, post, numbers, payer, now) {
        let (numbers, payer, now) = choose|numbers: [u8; 6], payer: Identity, now: i64|
            mint_step(pre, post, numbers, payer, now);
        assert(post.tickets@[i] == pre.tickets@[i]);
    } else if exists|ticket_id: u64, caller: Identity| claim_step(pre, post, ticket_id, caller) {
        let (ticket_id, caller) = choose|ticket_id: u64, caller: Identity|
            claim_step(pre, post, ticket_id, caller);
        if i == ticket_id as int {
            assert(post.tickets@[i].numbers == pre.tickets@[i].numbers);
        } else {
            assert(post.tickets@[i] == pre.tickets@[i]);
        }
    } else if exists|ticket_id: u64, buyer: Identity| buy_step(pre, post, ticket_id, buyer) {
        let (ticket_id, buyer) = choose|ticket_id: u64, buyer: Identity|
            buy_step(pre, post, ticket_id, buyer);
        if i == ticket_id as int {
            assert(post.tickets@[i].numbers == pre.tickets@[i].numbers);
        } else {
            assert(post.tickets@[i] == pre.tickets@[i]);
        }
    } else {
        assert(post.tickets@ == pre.tickets@);
    }
}

/// The round id never decreases: it is untouched by every operation except
/// a round advancement, which increases it by exactly one.
pub proof fn law_round_id_monotonic(pre: Lottery, post: Lottery)
    requires
        lottery_step(pre, post),
    ensures
        post.round_id >= pre.round_id,
{
    if exists|now: i64| new_round_step(pre, post, now) {
        let now = choose|now: i64| new_round_step(pre, post, now);
        assert(post.round_id == pre.round_id + 1);
    }
}

/// The reveal clock only advances: a reveal is accepted only a full
/// interval after the previous one, so a successful reveal moves
/// `last_reveal_time` strictly forward.
pub proof fn law_reveal_time_advances(pre: Lottery, post: Lottery, caller: Identity, entropy: u64, now: i64)
    requires
        reveal_check(pre, caller, now) is None,
        reveal_step(pre, post, entropy, now),
    ensures
        post.last_reveal_time > pre.last_reveal_time,
{
}

/// Six successful reveals starting from a fresh round leave the round
/// complete with all six numbers revealed, and any further reveal attempt
/// by the authority is refused because the round is complete.
pub proof fn law_six_reveals_complete_round(
    states: Seq<Lottery>,
    entropies: Seq<u64>,
    times: Seq<i64>,
    caller: Identity,
    t: i64,
)
    requires
        states.len() == 7,
        entropies.len() == 6,
        times.len() == 6,
        states[0].reveal_index == 0,
        forall|i: int|
            0 <= i < 6 ==> reveal_step(#[trigger] states[i], states[i + 1], entropies[i], times[i]),
        caller == states[6].authority,
    ensures
        states[6].reveal_index == 6,
        states[6].round_complete,
        reveal_check(states[6], caller, t) == Some(LotteryError::RoundComplete),
{
    assert(reveal_step(states[0], states[1], entropies[0], times[0]));
    assert(reveal_step(states[1], states[2], entropies[1], times[1]));
    assert(reveal_step(states[2], states[3], entropies[2], times[2]));
    assert(reveal_step(states[3], states[4], entropies[3], times[3]));
    assert(reveal_step(states[4], states[5], entropies[4], times[4]));
    assert(reveal_step(states[5], states[6], entropies[5], times[5]));
}

/// A prize is paid at most once per ticket: right after a successful claim,
/// a second claim of the same ticket is refused as already claimed,
/// whoever attempts it.
pub proof fn law_claim_at_most_once(
    pre: Lottery,
    post: Lottery,
    ticket_id: u64,
    caller: Identity,
    second_caller: Identity,
)
    requires
        pre.wf(),
        claim_check(pre, ticket_id, caller) is None,
        claim_step(pre, post, ticket_id, caller),
    ensures
        post.accumulated_prize == 0,
        claim_check(post, ticket_id, second_caller) == Some(LotteryError::PrizeAlreadyClaimed),
{
    assert(post.tickets@[ticket_id as int].claimed);
}

} // verus!
