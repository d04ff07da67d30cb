use sequential_lottery::errors::LotteryError;
use sequential_lottery::records::Identity;
use sequential_lottery::round::{Lottery, MINT_PRICE};

fn authority() -> Identity {
    Identity { hi: 0xA0A0, lo: 1 }
}

fn alice() -> Identity {
    Identity { hi: 0xB0B0, lo: 2 }
}

fn bob() -> Identity {
    Identity { hi: 0xC0C0, lo: 3 }
}

fn marketplace() -> Identity {
    Identity { hi: 0xD0D0, lo: 4 }
}

fn with_one_ticket() -> Lottery {
    let mut l = Lottery::initialize(authority(), 0);
    l.mint_ticket([1, 2, 3, 4, 5, 6], alice(), MINT_PRICE, 0).unwrap();
    l
}

#[test]
fn list_requires_ownership() {
    let mut l = with_one_ticket();
    let r = l.list_ticket(0, 1000, bob());
    assert_eq!(r.unwrap_err(), LotteryError::NotTicketOwner);
    // an id no ticket carries is refused the same way
    let r2 = l.list_ticket(5, 1000, alice());
    assert_eq!(r2.unwrap_err(), LotteryError::NotTicketOwner);
    assert_eq!(l.listings.len(), 0);
}

#[test]
fn list_rejects_zero_price() {
    let mut l = with_one_ticket();
    let r = l.list_ticket(0, 0, alice());
    assert_eq!(r.unwrap_err(), LotteryError::InvalidPrice);
    assert_eq!(l.listings.len(), 0);
}

#[test]
fn list_creates_active_listing() {
    let mut l = with_one_ticket();
    let event = l.list_ticket(0, 1000, alice()).unwrap();
    assert_eq!(event.ticket_id, 0);
    assert_eq!(event.seller, alice());
    assert_eq!(event.price, 1000);
    assert_eq!(l.listings.len(), 1);
    assert_eq!(l.listings[0].ticket_id, 0);
    assert_eq!(l.listings[0].seller, alice());
    assert_eq!(l.listings[0].price, 1000);
    assert!(l.listings[0].active);
}

#[test]
fn relist_updates_row_in_place() {
    let mut l = with_one_ticket();
    l.list_ticket(0, 1000, alice()).unwrap();
    l.delist_ticket(0, alice()).unwrap();
    assert!(!l.listings[0].active);
    l.list_ticket(0, 2500, alice()).unwrap();
    assert_eq!(l.listings.len(), 1);
    assert_eq!(l.listings[0].price, 2500);
    assert!(l.listings[0].active);
}

#[test]
fn delist_requires_active_listing_and_seller() {
    let mut l = with_one_ticket();
    let r = l.delist_ticket(0, alice());
    assert_eq!(r.unwrap_err(), LotteryError::TicketNotListed);
    // an id no ticket carries has no listing either
    let r_unknown = l.delist_ticket(7, alice());
    assert_eq!(r_unknown.unwrap_err(), LotteryError::TicketNotListed);
    l.list_ticket(0, 1000, alice()).unwrap();
    let r2 = l.delist_ticket(0, bob());
    assert_eq!(r2.unwrap_err(), LotteryError::NotSeller);
    assert!(l.listings[0].active);
    let event = l.delist_ticket(0, alice()).unwrap();
    assert_eq!(event.ticket_id, 0);
    assert_eq!(event.seller, alice());
    assert!(!l.listings[0].active);
}

#[test]
fn buy_requires_active_listing_and_funds() {
    let mut l = with_one_ticket();
    let r = l.buy_ticket(0, bob(), 5000);
    assert_eq!(r.unwrap_err(), LotteryError::TicketNotListed);
    l.list_ticket(0, 1000, alice()).unwrap();
    let r2 = l.buy_ticket(0, bob(), 999);
    assert_eq!(r2.unwrap_err(), LotteryError::InsufficientFunds);
    assert_eq!(l.tickets[0].owner, alice());
}

#[test]
fn seller_cannot_buy_own_listing() {
    let mut l = with_one_ticket();
    l.list_ticket(0, 1000, alice()).unwrap();
    let r = l.buy_ticket(0, alice(), 5000);
    assert_eq!(r.unwrap_err(), LotteryError::CannotBuyOwnTicket);
    // nothing changed: still owned by the seller, still listed
    assert_eq!(l.tickets[0].owner, alice());
    assert!(l.listings[0].active);
}

#[test]
fn sale_settles_fees_and_transfers_ownership() {
    let mut l = with_one_ticket();
    l.list_ticket(0, 1000, alice()).unwrap();

    // the runtime's view of everyone's balance before the sale
    let mut balances = [(alice(), 0u64), (bob(), 5000u64), (authority(), 0u64), (marketplace(), 0u64)];

    let (event, split) = l.buy_ticket(0, bob(), 5000).unwrap();
    assert_eq!(event.ticket_id, 0);
    assert_eq!(event.seller, alice());
    assert_eq!(event.buyer, bob());
    assert_eq!(event.price, 1000);
    assert_eq!(split.owner_fee, 10);
    assert_eq!(split.marketplace_fee, 20);
    assert_eq!(split.seller_amount, 970);

    // apply the settlement the way the value-transfer runtime would
    for entry in balances.iter_mut() {
        if entry.0 == event.buyer {
            entry.1 -= event.price;
        }
        if entry.0 == event.seller {
            entry.1 += split.seller_amount;
        }
        if entry.0 == authority() {
            entry.1 += split.owner_fee;
        }
        if entry.0 == marketplace() {
            entry.1 += split.marketplace_fee;
        }
    }
    assert_eq!(balances[0].1, 970);
    assert_eq!(balances[1].1, 4000);
    assert_eq!(balances[2].1, 10);
    assert_eq!(balances[3].1, 20);

    assert_eq!(l.tickets[0].owner, bob());
    assert!(!l.listings[0].active);
    // a sale touches neither the numbers nor the claimed flag
    assert_eq!(l.tickets[0].numbers, [1, 2, 3, 4, 5, 6]);
    assert!(!l.tickets[0].claimed);
}

#[test]
fn buying_again_needs_a_fresh_listing() {
    let mut l = with_one_ticket();
    l.list_ticket(0, 1000, alice()).unwrap();
    l.buy_ticket(0, bob(), 5000).unwrap();
    let r = l.buy_ticket(0, marketplace(), 5000);
    assert_eq!(r.unwrap_err(), LotteryError::TicketNotListed);
}
