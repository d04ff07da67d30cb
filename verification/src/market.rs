//! The marketplace engine: listing, delisting and buying tickets.
//!
//! At most one listing row exists per ticket id; re-listing a ticket
//! updates that row's price and reactivates it in place. A sale settles
//! through the fee engine: the price divides into the authority's fee, the
//! marketplace's fee and the seller's amount, ownership moves to the buyer,
//! and the listing deactivates, all in one indivisible operation.

use vstd::prelude::*;
use crate::errors::{err_of, LotteryError};
use crate::events::{TicketDelisted, TicketListed, TicketSold};
use crate::fees;
use crate::fees::{spec_split, SaleSplit};
use crate::records::{numbers_in_range, Identity, Listing, Ticket};
use crate::round::{Lottery, MARKETPLACE_FEE_BP, OWNER_FEE_BP};

verus! {

/// Some listing row (active or not) exists for `ticket_id`.
pub open spec fn has_listing(listings: Seq<Listing>, ticket_id: u64) -> bool {
    exists|i: int| 0 <= i < listings.len() && (#[trigger] listings[i]).ticket_id == ticket_id
}

/// The index of the listing row for `ticket_id`; meaningful only when
/// `has_listing` holds. Under the state invariant that row is unique.
pub open spec fn listing_index(listings: Seq<Listing>, ticket_id: u64) -> int {
    choose|i: int| 0 <= i < listings.len() && (#[trigger] listings[i]).ticket_id == ticket_id
}

/// An active listing row exists for `ticket_id`.
pub open spec fn has_active_listing(listings: Seq<Listing>, ticket_id: u64) -> bool {
    exists|i: int|
        0 <= i < listings.len() && (#[trigger] listings[i]).ticket_id == ticket_id
            && listings[i].active
}

/// Which error a listing attempt reports, or `None` when it succeeds: the
/// caller must own the ticket named by a valid id, and the price must be
/// positive.
pub open spec fn list_check(s: Lottery, ticket_id: u64, price: u64, caller: Identity) -> Option<
    LotteryError,
> {
    if ticket_id >= s.tickets@.len() || caller != s.tickets@[ticket_id as int].owner {
        Some(LotteryError::NotTicketOwner)
    } else if price == 0 {
        Some(LotteryError::InvalidPrice)
    } else {
        None
    }
}

/// How a successful listing changes the state: when a row for the ticket
/// already exists, its price is updated and it is reactivated in place;
/// otherwise a fresh active row with the caller as seller is appended.
/// Everything else stays as it was.
pub open spec fn list_step(
    pre: Lottery,
    post: Lottery,
    ticket_id: u64,
    price: u64,
    caller: Identity,
) -> bool {
    &&& post.authority == pre.authority
    &&& post.round_id == pre.round_id
    &&& post.reveal_index == pre.reveal_index
    &&& post.revealed_numbers == pre.revealed_numbers
    &&& post.last_reveal_time == pre.last_reveal_time
    &&& post.round_complete == pre.round_complete
    &&& post.accumulated_prize == pre.accumulated_prize
    &&& post.tickets@ == pre.tickets@
    &&& if has_listing(pre.listings@, ticket_id) {
        post.listings@ == pre.listings@.update(
            listing_index(pre.listings@, ticket_id),
            Listing {
                ticket_id,
                seller: pre.listings@[listing_index(pre.listings@, ticket_id)].seller,
                price,
                active: true,
            },
        )
    } else {
        post.listings@ == pre.listings@.push(
            Listing { ticket_id, seller: caller, price, active: true },
        )
    }
}

/// Which error a delisting attempt reports, or `None` when it succeeds:
/// an active listing must exist and the caller must be its seller.
pub open spec fn delist_check(s: Lottery, ticket_id: u64, caller: Identity) -> Option<
    LotteryError,
> {
    if !has_active_listing(s.listings@, ticket_id) {
        Some(LotteryError::TicketNotListed)
    } else if caller != s.listings@[listing_index(s.listings@, ticket_id)].seller {
        Some(LotteryError::NotSeller)
    } else {
        None
    }
}

/// How a successful delisting changes the state: the ticket's listing row
/// deactivates in place; everything else stays as it was.
pub open spec fn delist_step(pre: Lottery, post: Lottery, ticket_id: u64) -> bool {
    let pos = listing_index(pre.listings@, ticket_id);
    &&& has_active_listing(pre.listings@, ticket_id)
    &&& post.authority == pre.authority
    &&& post.round_id == pre.round_id
    &&& post.reveal_index == pre.reveal_index
    &&& post.revealed_numbers == pre.revealed_numbers
    &&& post.last_reveal_time == pre.last_reveal_time
    &&& post.round_complete == pre.round_complete
    &&& post.accumulated_prize == pre.accumulated_prize
    &&& post.tickets@ == pre.tickets@
    &&& post.listings@ == pre.listings@.update(
        pos,
        Listing {
            ticket_id,
            seller: pre.listings@[pos].seller,
            price: pre.listings@[pos].price,
            active: false,
        },
    )
}

/// Which error a purchase attempt reports, or `None` when it succeeds: an
/// active listing must exist, the buyer's funds must cover its price, and
/// the buyer may not be its seller.
pub open spec fn buy_check(s: Lottery, ticket_id: u64, buyer: Identity, buyer_funds: u64) -> Option<
    LotteryError,
> {
    if !has_active_listing(s.listings@, ticket_id) {
        Some(LotteryError::TicketNotListed)
    } else if buyer_funds < s.listings@[listing_index(s.listings@, ticket_id)].price {
        Some(LotteryError::InsufficientFunds)
    } else if buyer == s.listings@[listing_index(s.listings@, ticket_id)].seller {
        Some(LotteryError::CannotBuyOwnTicket)
    } else {
        None
    }
}

/// How a successful purchase changes the state: the ticket's owner becomes
/// the buyer, the listing row deactivates in place, and everything else —
/// including the ticket's numbers and claimed flag — stays as it was.
pub open spec fn buy_step(pre: Lottery, post: Lottery, ticket_id: u64, buyer: Identity) -> bool {
    let pos = listing_index(pre.listings@, ticket_id);
    let t = pre.tickets@[ticket_id as int];
    &&& has_active_listing(pre.listings@, ticket_id)
    &&& ticket_id < pre.tickets@.len()
    &&& post.authority == pre.authority
    &&& post.round_id == pre.round_id
    &&& post.reveal_index == pre.reveal_index
    &&& post.revealed_numbers == pre.revealed_numbers
    &&& post.last_reveal_time == pre.last_reveal_time
    &&& post.round_complete == pre.round_complete
    &&& post.accumulated_prize == pre.accumulated_prize
    &&& post.tickets@ == pre.tickets@.update(
        ticket_id as int,
        Ticket { numbers: t.numbers, owner: buyer, claimed: t.claimed, mint_time: t.mint_time },
    )
    &&& post.listings@ == pre.listings@.update(
        pos,
        Listing {
            ticket_id,
            seller: pre.listings@[pos].seller,
            price: pre.listings@[pos].price,
            active: false,
        },
    )
}

/// Finds the listing row for `ticket_id`, active or not.
fn find_listing(listings: &Vec<Listing>, ticket_id: u64) -> (r: Option<usize>)
    ensures
        r matches Some(pos) ==> 0 <= pos < listings@.len() && listings@[pos as int].ticket_id
            == ticket_id,
        r is Some <==> has_listing(listings@, ticket_id),
{
    let n = listings.len();
    let mut i: usize = 0;
    while i < n
        invariant
            i <= n,
            n == listings@.len(),
            forall|j: int| 0 <= j < i ==> (#[trigger] listings@[j]).ticket_id != ticket_id,
        decreases n - i,
    {
        if listings[i].ticket_id == ticket_id {
            return Some(i);
        }
        i = i + 1;
    }
    None
}

/// Finds the active listing row for `ticket_id`.
fn find_active_listing(listings: &Vec<Listing>, ticket_id: u64) -> (r: Option<usize>)
    ensures
        r matches Some(pos) ==> 0 <= pos < listings@.len() && listings@[pos as int].ticket_id
            == ticket_id && listings@[pos as int].active,
        r is Some <==> has_active_listing(listings@, ticket_id),
{
    let n = listings.len();
    let mut i: usize = 0;
    while i < n
        invariant
            i <= n,
            n == listings@.len(),
            forall|j: int|
                0 <= j < i ==> !((#[trigger] listings@[j]).ticket_id == ticket_id
                    && listings@[j].active),
        decreases n - i,
    {
        if listings[i].ticket_id == ticket_id && listings[i].active {
            return Some(i);
        }
        i = i + 1;
    }
    None
}

impl Lottery {
    /// Lists the ticket with id `ticket_id` for sale at `price`, or updates
    /// and reactivates its existing listing row in place.
    pub fn list_ticket(&mut self, ticket_id: u64, price: u64, caller: Identity) -> (r: Result<
        TicketListed,
        LotteryError,
    >)
        requires
            old(self).wf(),
        ensures
            final(self).wf(),
            err_of(r) == list_check(*old(self), ticket_id, price, caller),
            r is Err ==> *final(self) == *old(self),
            r matches Ok(event) ==> {
                &&& list_step(*old(self), *final(self), ticket_id, price, caller)
                &&& event.ticket_id == ticket_id
                &&& event.seller == caller
                &&& event.price == price
            },
    {
        if ticket_id >= self.tickets.len() as u64 {
            return Err(LotteryError::NotTicketOwner);
        }
        let idx = ticket_id as usize;
        if caller != self.tickets[idx].owner {
            return Err(LotteryError::NotTicketOwner);
        }
        if price == 0 {
            return Err(LotteryError::InvalidPrice);
        }
        match find_listing(&self.listings, ticket_id) {
            Some(pos) => {
                proof {
                    let ls = self.listings@;
                    let spec_pos = listing_index(ls, ticket_id);
                    assert(0 <= spec_pos < ls.len() && ls[spec_pos].ticket_id == ticket_id);
                    assert(spec_pos == pos);
                }
                self.listings[pos].price = price;
                self.listings[pos].active = true;
                proof {
                    let old_ls = old(self).listings@;
                    assert(self.listings@ =~= old_ls.update(
                        pos as int,
                        Listing {
                            ticket_id,
                            seller: old_ls[pos as int].seller,
                            price,
                            active: true,
                        },
                    ));
                }
            },
            None => {
                self.listings.push(Listing { ticket_id, seller: caller, price, active: true });
                proof {
                    let ls = self.listings@;
                    let old_ls = old(self).listings@;
                    assert forall|i: int, j: int|
                        0 <= i < ls.len() && 0 <= j < ls.len() && i != j implies (
                    #[trigger] ls[i]).ticket_id != (#[trigger] ls[j]).ticket_id by {
                        if i < old_ls.len() && j < old_ls.len() {
                            assert(old_ls[i].ticket_id != old_ls[j].ticket_id);
                        } else if i < old_ls.len() {
                            assert(old_ls[i].ticket_id != ticket_id);
                        } else {
                            assert(old_ls[j].ticket_id != ticket_id);
                        }
                    }
                }
            },
        }
        Ok(TicketListed { ticket_id, seller: caller, price })
    }

    /// Withdraws the active listing for `ticket_id`; only its seller may.
    pub fn delist_ticket(&mut self, ticket_id: u64, caller: Identity) -> (r: Result<
        TicketDelisted,
        LotteryError,
    >)
        requires
            old(self).wf(),
        ensures
            final(self).wf(),
            err_of(r) == delist_check(*old(self), ticket_id, caller),
            r is Err ==> *final(self) == *old(self),
            r matches Ok(event) ==> {
                &&& delist_step(*old(self), *final(self), ticket_id)
                &&& event.ticket_id == ticket_id
                &&& event.seller == caller
            },
    {
        let pos = match find_active_listing(&self.listings, ticket_id) {
            Some(pos) => pos,
            None => {
                return Err(LotteryError::TicketNotListed);
            },
        };
        proof {
            let ls = self.listings@;
            let spec_pos = listing_index(ls, ticket_id);
            assert(0 <= spec_pos < ls.len() && ls[spec_pos].ticket_id == ticket_id);
            assert(spec_pos == pos);
        }
        if caller != self.listings[pos].seller {
            return Err(LotteryError::NotSeller);
        }
        self.listings[pos].active = false;
        Ok(TicketDelisted { ticket_id, seller: caller })
    }

    /// Sells the listed ticket with id `ticket_id` to `buyer`. On success
    /// the returned split says who is owed what out of the price named in
    /// the event: the authority its fee, the marketplace its fee, and the
    /// seller the remainder.
    pub fn buy_ticket(&mut self, ticket_id: u64, buyer: Identity, buyer_funds: u64) -> (r: Result<
        (TicketSold, SaleSplit),
        LotteryError,
    >)
        requires
            old(self).wf(),
        ensures
            final(self).wf(),
            err_of(r) == buy_check(*old(self), ticket_id, buyer, buyer_funds),
            r is Err ==> *final(self) == *old(self),
            r matches Ok((event, split)) ==> {
                let row = old(self).listings@[listing_index(old(self).listings@, ticket_id)];
                &&& buy_step(*old(self), *final(self), ticket_id, buyer)
                &&& event.ticket_id == ticket_id
                &&& event.seller == row.seller
                &&& event.buyer == buyer
                &&& event.price == row.price
                &&& split.owner_fee == spec_split(row.price as int, OWNER_FEE_BP as int)
                &&& split.marketplace_fee == spec_split(row.price as int, MARKETPLACE_FEE_BP as int)
                &&& split.seller_amount == row.price - split.owner_fee - split.marketplace_fee
                &&& split.owner_fee + split.marketplace_fee + split.seller_amount == row.price
            },
    {
        let pos = match find_active_listing(&self.listings, ticket_id) {
            Some(pos) => pos,
            None => {
                return Err(LotteryError::TicketNotListed);
            },
        };
        proof {
            let ls = self.listings@;
            let spec_pos = listing_index(ls, ticket_id);
            assert(0 <= spec_pos < ls.len() && ls[spec_pos].ticket_id == ticket_id);
            assert(spec_pos == pos);
        }
        let price = self.listings[pos].price;
        let seller = self.listings[pos].seller;
        if buyer_funds < price {
            return Err(LotteryError::InsufficientFunds);
        }
        if buyer == seller {
            return Err(LotteryError::CannotBuyOwnTicket);
        }
        proof {
            fees::lemma_sale_fees_covered(
                price as int,
                OWNER_FEE_BP as int,
                MARKETPLACE_FEE_BP as int,
            );
        }
        let split = match fees::sale_split(price, OWNER_FEE_BP, MARKETPLACE_FEE_BP) {
            Ok(split) => split,
            Err(e) => {
                // Unreachable: the two fee rates sum to far below 10000
                // basis points.
                return Err(e);
            },
        };
        let n = self.tickets.len();
        proof {
            assert(self.listings@[pos as int].ticket_id < self.tickets@.len());
            assert(ticket_id < n);
        }
        let tidx = ticket_id as usize;
        self.tickets[tidx].owner = buyer;
        self.listings[pos].active = false;
        proof {
            let ts = self.tickets@;
            let old_ts = old(self).tickets@;
            assert forall|i: int| 0 <= i < ts.len() implies numbers_in_range(
                (#[trigger] ts[i]).numbers@,
            ) by {
                assert(ts[i].numbers == old_ts[i].numbers);
            }
            assert forall|i: int, j: int|
                0 <= i < ts.len() && 0 <= j < ts.len() && i != j implies (
            #[trigger] ts[i]).numbers@ != (#[trigger] ts[j]).numbers@ by {
                assert(ts[i].numbers == old_ts[i].numbers);
                assert(ts[j].numbers == old_ts[j].numbers);
            }
        }
        Ok((TicketSold { ticket_id, seller, buyer, price }, split))
    }
}

} // verus!
