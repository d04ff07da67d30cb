use sequential_lottery::errors::LotteryError;
use sequential_lottery::records::Identity;
use sequential_lottery::round::{Lottery, MINT_PRICE, REVEAL_INTERVAL};

fn authority() -> Identity {
    Identity { hi: 0xA0A0, lo: 1 }
}

fn alice() -> Identity {
    Identity { hi: 0xB0B0, lo: 2 }
}

fn bob() -> Identity {
    Identity { hi: 0xC0C0, lo: 3 }
}

/// Reveals the numbers 1 through 6 across six interval-spaced calls.
fn complete_round_with_1_to_6(l: &mut Lottery) {
    for k in 0..6u64 {
        let now = l.last_reveal_time + REVEAL_INTERVAL;
        let event = l.reveal_number(authority(), 100 + (k + 1), now).unwrap();
        assert_eq!(event.number, (k + 1) as u8);
    }
    assert!(l.round_complete);
}

#[test]
fn claim_requires_complete_round() {
    let mut l = Lottery::initialize(authority(), 0);
    l.mint_ticket([1, 2, 3, 4, 5, 6], alice(), MINT_PRICE, 0).unwrap();
    let r = l.claim_prize(0, alice());
    assert_eq!(r.unwrap_err(), LotteryError::RoundNotComplete);
}

#[test]
fn claim_rejects_unknown_ticket() {
    let mut l = Lottery::initialize(authority(), 0);
    complete_round_with_1_to_6(&mut l);
    let r = l.claim_prize(0, alice());
    assert_eq!(r.unwrap_err(), LotteryError::InvalidTicketId);
}

#[test]
fn claim_rejects_non_owner() {
    let mut l = Lottery::initialize(authority(), 0);
    l.mint_ticket([1, 2, 3, 4, 5, 6], alice(), MINT_PRICE, 0).unwrap();
    complete_round_with_1_to_6(&mut l);
    let r = l.claim_prize(0, bob());
    assert_eq!(r.unwrap_err(), LotteryError::NotTicketOwner);
}

#[test]
fn claim_rejects_non_matching_numbers() {
    let mut l = Lottery::initialize(authority(), 0);
    l.mint_ticket([1, 2, 3, 4, 5, 7], alice(), MINT_PRICE, 0).unwrap();
    complete_round_with_1_to_6(&mut l);
    let r = l.claim_prize(0, alice());
    assert_eq!(r.unwrap_err(), LotteryError::NotWinningTicket);
    assert!(!l.tickets[0].claimed);
}

#[test]
fn winning_claim_pays_full_prize_once() {
    let mut l = Lottery::initialize(authority(), 0);
    l.mint_ticket([1, 2, 3, 4, 5, 6], alice(), MINT_PRICE, 0).unwrap();
    l.mint_ticket([7, 8, 9, 10, 11, 12], bob(), MINT_PRICE, 0).unwrap();
    complete_round_with_1_to_6(&mut l);
    let prize_before = l.accumulated_prize;
    assert_eq!(prize_before, 2 * 9_900_000);
    let event = l.claim_prize(0, alice()).unwrap();
    assert_eq!(event.winner, alice());
    assert_eq!(event.amount, prize_before);
    assert_eq!(l.accumulated_prize, 0);
    assert!(l.tickets[0].claimed);
    // a second claim of the same ticket is refused
    let r = l.claim_prize(0, alice());
    assert_eq!(r.unwrap_err(), LotteryError::PrizeAlreadyClaimed);
    assert_eq!(l.accumulated_prize, 0);
}

#[test]
fn end_to_end_mint_reveal_claim() {
    let mut l = Lottery::initialize(authority(), 0);
    let (event, ms) = l.mint_ticket([1, 2, 3, 4, 5, 6], alice(), MINT_PRICE, 0).unwrap();
    assert_eq!(event.ticket_id, 0);
    assert_eq!(ms.prize_contribution, 9_900_000);
    complete_round_with_1_to_6(&mut l);
    assert_eq!(l.revealed_numbers, [1, 2, 3, 4, 5, 6]);
    let awarded = l.claim_prize(0, alice()).unwrap();
    assert_eq!(awarded.winner, alice());
    assert_eq!(awarded.amount, 9_900_000);
    let again = l.claim_prize(0, alice());
    assert_eq!(again.unwrap_err(), LotteryError::PrizeAlreadyClaimed);
}
