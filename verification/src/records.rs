//! The persistent records the state machine works on: participant
//! identities, tickets and marketplace listings.

use vstd::prelude::*;

verus! {

/// An already-authenticated participant identity, held as 256 bits of plain
/// key material. The state machine only ever compares identities for
/// equality; the surrounding runtime is responsible for authentication.
#[derive(Clone, Copy, Debug, PartialEq, Eq, Structural)]
pub struct Identity {
    pub hi: u128,
    pub lo: u128,
}

/// A minted lottery ticket. Its id is its index in the minted-ticket
/// sequence; `numbers` never change after minting, `owner` changes only
/// through a marketplace sale, and `claimed` flips false to true at most
/// once.
#[derive(Clone, Copy, Debug)]
pub struct Ticket {
    pub numbers: [u8; 6],
    pub owner: Identity,
    pub claimed: bool,
    pub mint_time: i64,
}

/// A marketplace listing for the ticket with id `ticket_id`. At most one
/// listing row exists per ticket id; re-listing updates the row in place.
#[derive(Clone, Copy, Debug, PartialEq, Eq, Structural)]
pub struct Listing {
    pub ticket_id: u64,
    pub seller: Identity,
    pub price: u64,
    pub active: bool,
}

/// Every number of a ticket sequence lies in 0..=99.
pub open spec fn numbers_in_range(numbers: Seq<u8>) -> bool {
    forall|i: int| 0 <= i < numbers.len() ==> numbers[i] <= 99
}

/// Some ticket in `tickets` already carries exactly the sequence `numbers`.
pub open spec fn sequence_taken(tickets: Seq<Ticket>, numbers: Seq<u8>) -> bool {
    exists|i: int| 0 <= i < tickets.len() && #[trigger] tickets[i].numbers@ == numbers
}

/// Checks that every entry of `numbers` lies in 0..=99.
pub fn check_numbers_in_range(numbers: &[u8; 6]) -> (r: bool)
    ensures
        r == numbers_in_range(numbers@),
{
    let mut i: usize = 0;
    while i < 6
        invariant
            i <= 6,
            forall|j: int| 0 <= j < i ==> numbers@[j] <= 99,
        decreases 6 - i,
    {
        if numbers[i] > 99 {
            return false;
        }
        i = i + 1;
    }
    true
}

/// Compares two 6-number sequences element by element.
pub fn numbers_equal(a: &[u8; 6], b: &[u8; 6]) -> (r: bool)
    ensures
        r == (a@ == b@),
{
    let mut i: usize = 0;
    while i < 6
        invariant
            i <= 6,
            forall|j: int| 0 <= j < i ==> a@[j] == b@[j],
        decreases 6 - i,
    {
        if a[i] != b[i] {
            return false;
        }
        i = i + 1;
    }
    proof {
        assert(a@ =~= b@);
    }
    true
}

/// Checks whether some ticket in `tickets` already carries `numbers`.
pub fn find_sequence(tickets: &Vec<Ticket>, numbers: &[u8; 6]) -> (r: bool)
    ensures
        r == sequence_taken(tickets@, numbers@),
{
    let n = tickets.len();
    let mut i: usize = 0;
    while i < n
        invariant
            i <= n,
            n == tickets@.len(),
            forall|j: int| 0 <= j < i ==> #[trigger] tickets@[j].numbers@ != numbers@,
        decreases n - i,
    {
        if numbers_equal(&tickets[i].numbers, numbers) {
            return true;
        }
        i = i + 1;
    }
    false
}

} // verus!
