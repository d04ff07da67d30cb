//! The fee and accounting engine.
//!
//! Pure computation shared by minting and marketplace settlement: a fee is
//! `floor(price * rate_bp / 10000)` of a price, computed at 128-bit width so
//! the multiplication cannot overflow. Any result that cannot be paid out of
//! the price, or does not fit in 64 bits, is refused with
//! [`LotteryError::ArithmeticOverflow`] before any state changes.

use vstd::prelude::*;
use vstd::arithmetic::div_mod::{
    lemma_div_is_ordered, lemma_div_pos_is_pos, lemma_fundamental_div_mod,
};
use crate::errors::LotteryError;

verus! {

/// The fee taken from `price` at `fee_rate_bp` basis points:
/// `floor(price * fee_rate_bp / 10000)`.
pub open spec fn spec_split(price: int, fee_rate_bp: int) -> int {
    price * fee_rate_bp / 10000
}

/// A fee is never negative.
pub proof fn lemma_split_nonneg(price: int, fee_rate_bp: int)
    requires
        0 <= price,
        0 <= fee_rate_bp,
    ensures
        0 <= spec_split(price, fee_rate_bp),
{
    assert(0 <= price * fee_rate_bp) by (nonlinear_arith)
        requires
            0 <= price,
            0 <= fee_rate_bp,
    ;
    lemma_div_pos_is_pos(price * fee_rate_bp, 10000);
}

/// A fee at a rate of at most 10000 basis points never exceeds the price.
pub proof fn lemma_split_le_price(price: int, fee_rate_bp: int)
    requires
        0 <= price,
        0 <= fee_rate_bp <= 10000,
    ensures
        0 <= spec_split(price, fee_rate_bp) <= price,
{
    lemma_split_nonneg(price, fee_rate_bp);
    assert(price * fee_rate_bp <= price * 10000) by (nonlinear_arith)
        requires
            0 <= price,
            fee_rate_bp <= 10000,
    ;
    lemma_div_is_ordered(price * fee_rate_bp, price * 10000, 10000);
    assert(price * 10000 / 10000 == price) by (nonlinear_arith)
        requires
            0 <= price,
    ;
}

/// Two fees whose rates sum to at most 10000 basis points are together
/// covered by the price.
pub proof fn lemma_sale_fees_covered(price: int, owner_fee_bp: int, marketplace_fee_bp: int)
    requires
        0 <= price,
        0 <= owner_fee_bp,
        0 <= marketplace_fee_bp,
        owner_fee_bp + marketplace_fee_bp <= 10000,
    ensures
        0 <= spec_split(price, owner_fee_bp) + spec_split(price, marketplace_fee_bp) <= price,
{
    let a = price * owner_fee_bp;
    let b = price * marketplace_fee_bp;
    lemma_split_nonneg(price, owner_fee_bp);
    lemma_split_nonneg(price, marketplace_fee_bp);
    lemma_fundamental_div_mod(a, 10000);
    lemma_fundamental_div_mod(b, 10000);
    // a / 10000 + b / 10000 <= (a + b) / 10000, because the two remainders
    // are non-negative.
    assert(10000 * (a / 10000 + b / 10000) <= a + b);
    assert(a / 10000 + b / 10000 <= (a + b) / 10000) by (nonlinear_arith)
        requires
            10000 * (a / 10000 + b / 10000) <= a + b,
    ;
    assert(a + b == price * (owner_fee_bp + marketplace_fee_bp)) by (nonlinear_arith)
        requires
            a == price * owner_fee_bp,
            b == price * marketplace_fee_bp,
    ;
    assert(price * (owner_fee_bp + marketplace_fee_bp) <= price * 10000) by (nonlinear_arith)
        requires
            0 <= price,
            owner_fee_bp + marketplace_fee_bp <= 10000,
    ;
    lemma_div_is_ordered(a + b, price * 10000, 10000);
    assert(price * 10000 / 10000 == price) by (nonlinear_arith)
        requires
            0 <= price,
    ;
}

/// Computes the fee on `price` at `fee_rate_bp` basis points, widening to
/// 128 bits for the multiplication.
pub fn split(price: u64, fee_rate_bp: u64) -> (r: Result<u64, LotteryError>)
    ensures
        r is Ok <==> spec_split(price as int, fee_rate_bp as int) <= u64::MAX,
        r matches Ok(fee) ==> fee == spec_split(price as int, fee_rate_bp as int),
        r matches Err(e) ==> e == LotteryError::ArithmeticOverflow,
{
    proof {
        assert((price as int) * (fee_rate_bp as int) <= (u64::MAX as int) * (u64::MAX as int))
            by (nonlinear_arith)
            requires
                0 <= price as int <= u64::MAX as int,
                0 <= fee_rate_bp as int <= u64::MAX as int,
        ;
    }
    let wide: u128 = (price as u128) * (fee_rate_bp as u128);
    let fee: u128 = wide / 10000;
    if fee > u64::MAX as u128 {
        Err(LotteryError::ArithmeticOverflow)
    } else {
        Ok(fee as u64)
    }
}

/// How a mint payment is divided: the authority's fee and the remainder that
/// goes into the prize pool.
#[derive(Clone, Copy, Debug, PartialEq, Eq, Structural)]
pub struct MintSplit {
    pub owner_fee: u64,
    pub prize_contribution: u64,
}

/// Divides the mint price into the authority's fee and the prize
/// contribution, which together add up to the whole mint price.
pub fn mint_contribution(mint_price: u64, owner_fee_bp: u64) -> (r: Result<MintSplit, LotteryError>)
    ensures
        r is Ok <==> spec_split(mint_price as int, owner_fee_bp as int) <= mint_price,
        r matches Ok(ms) ==> {
            &&& ms.owner_fee == spec_split(mint_price as int, owner_fee_bp as int)
            &&& ms.prize_contribution == mint_price - ms.owner_fee
            &&& ms.owner_fee + ms.prize_contribution == mint_price
        },
        r matches Err(e) ==> e == LotteryError::ArithmeticOverflow,
{
    match split(mint_price, owner_fee_bp) {
        Err(e) => Err(e),
        Ok(fee) => {
            if fee > mint_price {
                Err(LotteryError::ArithmeticOverflow)
            } else {
                Ok(MintSplit { owner_fee: fee, prize_contribution: mint_price - fee })
            }
        },
    }
}

/// How a sale price is divided: the authority's fee, the marketplace's fee,
/// and what is left for the seller.
#[derive(Clone, Copy, Debug, PartialEq, Eq, Structural)]
pub struct SaleSplit {
    pub owner_fee: u64,
    pub marketplace_fee: u64,
    pub seller_amount: u64,
}

/// Divides a sale price into the two fees and the seller's amount, which
/// together add up to the whole price.
pub fn sale_split(price: u64, owner_fee_bp: u64, marketplace_fee_bp: u64) -> (r: Result<
    SaleSplit,
    LotteryError,
>)
    ensures
        r is Ok <==> spec_split(price as int, owner_fee_bp as int)
            + spec_split(price as int, marketplace_fee_bp as int) <= price,
        r matches Ok(s) ==> {
            &&& s.owner_fee == spec_split(price as int, owner_fee_bp as int)
            &&& s.marketplace_fee == spec_split(price as int, marketplace_fee_bp as int)
            &&& s.seller_amount == price - s.owner_fee - s.marketplace_fee
            &&& s.owner_fee + s.marketplace_fee + s.seller_amount == price
        },
        r matches Err(e) ==> e == LotteryError::ArithmeticOverflow,
{
    proof {
        lemma_split_nonneg(price as int, owner_fee_bp as int);
        lemma_split_nonneg(price as int, marketplace_fee_bp as int);
    }
    let owner_fee = match split(price, owner_fee_bp) {
        Ok(fee) => fee,
        Err(e) => {
            return Err(e);
        },
    };
    let marketplace_fee = match split(price, marketplace_fee_bp) {
        Ok(fee) => fee,
        Err(e) => {
            return Err(e);
        },
    };
    if (owner_fee as u128) + (marketplace_fee as u128) > price as u128 {
        Err(LotteryError::ArithmeticOverflow)
    } else {
        Ok(
            SaleSplit {
                owner_fee,
                marketplace_fee,
                seller_amount: price - owner_fee - marketplace_fee,
            },
        )
    }
}

} // verus!
