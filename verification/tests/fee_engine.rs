use sequential_lottery::errors::LotteryError;
use sequential_lottery::fees::{mint_contribution, sale_split, split};

#[test]
fn split_exact_values() {
    assert_eq!(split(1000, 100).unwrap(), 10);
    assert_eq!(split(1000, 200).unwrap(), 20);
    assert_eq!(split(10_000_000, 100).unwrap(), 100_000);
    assert_eq!(split(0, 100).unwrap(), 0);
    assert_eq!(split(9999, 1).unwrap(), 0);
    assert_eq!(split(10000, 1).unwrap(), 1);
}

#[test]
fn split_overflow_is_refused() {
    assert_eq!(split(u64::MAX, u64::MAX), Err(LotteryError::ArithmeticOverflow));
    assert_eq!(split(u64::MAX, 10001), Err(LotteryError::ArithmeticOverflow));
    // exactly 100% of the largest price still fits
    assert_eq!(split(u64::MAX, 10000).unwrap(), u64::MAX);
}

#[test]
fn mint_contribution_exact_values() {
    let ms = mint_contribution(10_000_000, 100).unwrap();
    assert_eq!(ms.owner_fee, 100_000);
    assert_eq!(ms.prize_contribution, 9_900_000);
    assert_eq!(ms.owner_fee + ms.prize_contribution, 10_000_000);
}

#[test]
fn mint_contribution_overflow_is_refused() {
    // a rate above 100% makes the fee exceed the price
    assert_eq!(mint_contribution(1000, 20000), Err(LotteryError::ArithmeticOverflow));
    assert_eq!(mint_contribution(u64::MAX, u64::MAX), Err(LotteryError::ArithmeticOverflow));
}

#[test]
fn sale_split_exact_values() {
    let s = sale_split(1000, 100, 200).unwrap();
    assert_eq!(s.owner_fee, 10);
    assert_eq!(s.marketplace_fee, 20);
    assert_eq!(s.seller_amount, 970);
    assert_eq!(s.owner_fee + s.marketplace_fee + s.seller_amount, 1000);
}

#[test]
fn sale_split_rounds_down() {
    let s = sale_split(999, 100, 200).unwrap();
    assert_eq!(s.owner_fee, 9);
    assert_eq!(s.marketplace_fee, 19);
    assert_eq!(s.seller_amount, 971);
}

#[test]
fn sale_split_overflow_is_refused() {
    // rates summing above 100% cannot be paid out of the price
    assert_eq!(sale_split(1000, 6000, 5000), Err(LotteryError::ArithmeticOverflow));
    assert_eq!(sale_split(u64::MAX, u64::MAX, 1), Err(LotteryError::ArithmeticOverflow));
}
