//! A Dutch auction of a single token: the price falls linearly from the
//! starting price to the floor price over the auction's duration.

use vstd::prelude::*;
use vstd::arithmetic::div_mod::{lemma_div_is_ordered, lemma_div_multiples_vanish, lemma_div_pos_is_pos,
    lemma_fundamental_div_mod, lemma_mod_pos_bound};
use vstd::arithmetic::mul::lemma_mul_inequality;
use crate::address::Address;

verus! {

/// An auction: the seller, the prices, the duration and start (seconds),
/// the auctioned mint and whether it was sold.
#[derive(Debug, Clone, Copy)]
pub struct Auction {
    pub seller: Address,
    pub starting_price: u64,
    pub floor_price: u64,
    pub duration: i64,
    pub starting_time: i64,
    pub token_mint: Address,
    pub sold: bool,
}

/// Why a purchase is refused.
#[derive(Debug, Clone, Copy, PartialEq, Eq, Structural)]
pub enum AuctionError {
    AuctionNotStarted,
    InsufficientFunds,
    AuctionEnded,
    AuctionAlreadyEnded,
    NTFAlreadySold,
}

/// Starts an auction at time `now` for one token of `token_mint` (the
/// caller then moves that token into the auction's vault).
pub fn initialize_auction(seller: Address, token_mint: Address, starting_price: u64, floor_price: u64,
    duration: i64, now: i64) -> (r: Auction)
    ensures
        r == (Auction { seller, starting_price, floor_price, duration, starting_time: now, token_mint,
            sold: false }),
{
    Auction { seller, starting_price, floor_price, duration, starting_time: now, token_mint, sold: false }
}

/// The time that has run at `now`, capped at the duration.
pub open spec fn elapsed(a: Auction, now: i64) -> int {
    let e = now - a.starting_time;
    if e < a.duration { e } else { a.duration as int }
}

/// How far the price has dropped at `now`: the whole drop scaled by the
/// share of the duration that has run, rounded down.
pub open spec fn price_drop(a: Auction, now: i64) -> int {
    (a.starting_price - a.floor_price) * elapsed(a, now) / (a.duration as int)
}

/// The price at `now`.
pub open spec fn spec_price(a: Auction, now: i64) -> int {
    a.starting_price - price_drop(a, now)
}

/// The inputs on which a purchase does not return: an unsold, started
/// auction whose end time overflows, or, when it has not ended, whose
/// floor is above its starting price, whose scaled drop overflows a `u64`,
/// or whose duration is zero.
pub open spec fn buy_panics(a: Auction, now: i64) -> bool {
    let end = a.starting_time + a.duration;
    &&& !a.sold
    &&& now >= a.starting_time
    &&& (end > i64::MAX || end < i64::MIN || (now <= end && (a.floor_price > a.starting_price
        || (a.starting_price - a.floor_price) * elapsed(a, now) > u64::MAX || a.duration == 0)))
}

/// The outcome of a purchase at `now` by a buyer holding `buyer_lamports`:
/// refused once sold, before the start and after the end; refused when the
/// buyer cannot pay; otherwise the price paid to the seller (the token goes
/// to the buyer).
pub open spec fn buy_outcome(a: Auction, now: i64, buyer_lamports: u64) -> Result<u64, AuctionError> {
    if a.sold {
        Err(AuctionError::NTFAlreadySold)
    } else if now < a.starting_time {
        Err(AuctionError::AuctionNotStarted)
    } else if now > a.starting_time + a.duration {
        Err(AuctionError::AuctionEnded)
    } else if buyer_lamports < spec_price(a, now) {
        Err(AuctionError::InsufficientFunds)
    } else {
        Ok(spec_price(a, now) as u64)
    }
}

/// The scaled drop lies between zero and the whole drop.
proof fn lemma_drop_bounds(d: int, e: int, big_d: int)
    requires
        0 <= d,
        0 <= e <= big_d,
        0 < big_d,
    ensures
        0 <= d * e / big_d <= d,
{
    lemma_mul_inequality(e, big_d, d);
    assert(e * d == d * e) by (nonlinear_arith);
    assert(big_d * d == d * big_d) by (nonlinear_arith);
    lemma_div_is_ordered(d * e, d * big_d, big_d);
    lemma_div_multiples_vanish(d, big_d);
    assert(big_d * d == d * big_d) by (nonlinear_arith);
    assert(0 <= d * e) by (nonlinear_arith)
        requires 0 <= d, 0 <= e;
    lemma_div_pos_is_pos(d * e, big_d);
}

/// A purchase at time `now` by a buyer holding `buyer_lamports`: the price
/// the buyer pays, or why it is refused.
pub fn buy(auction: &Auction, now: i64, buyer_lamports: u64) -> (r: Result<u64, AuctionError>)
    requires
        !buy_panics(*auction, now),
    ensures
        r == buy_outcome(*auction, now, buyer_lamports),
{
    if auction.sold {
        return Err(AuctionError::NTFAlreadySold);
    }
    if now < auction.starting_time {
        return Err(AuctionError::AuctionNotStarted);
    }
    let end = auction.starting_time + auction.duration;
    if now > end {
        return Err(AuctionError::AuctionEnded);
    }
    let diff = now - auction.starting_time;
    let e: i64 = if diff < auction.duration { diff } else { auction.duration };
    let elapsed_secs = e as u64;
    let total_price_drop = auction.starting_price - auction.floor_price;
    proof {
        lemma_drop_bounds(total_price_drop as int, e as int, auction.duration as int);
    }
    let product = total_price_drop * elapsed_secs;
    let dropped = product / (auction.duration as u64);
    let price = auction.starting_price - dropped;
    if buyer_lamports < price {
        return Err(AuctionError::InsufficientFunds);
    }
    Ok(price)
}

/// The price of a started auction whose floor is at most its starting
/// price lies between the two, and a purchase that goes through pays it.
pub proof fn lemma_price_within_bounds(a: Auction, now: i64, buyer_lamports: u64)
    requires
        a.floor_price <= a.starting_price,
        a.duration > 0,
        a.starting_time <= now,
    ensures
        a.floor_price <= spec_price(a, now) <= a.starting_price,
        buy_outcome(a, now, buyer_lamports) is Ok
            ==> buy_outcome(a, now, buyer_lamports)->Ok_0 == spec_price(a, now),
{
    lemma_drop_bounds(a.starting_price - a.floor_price, elapsed(a, now), a.duration as int);
}

/// The price never rises once the auction has started: of two times, the
/// later one's price is at most the earlier one's.
pub proof fn lemma_price_non_increasing(a: Auction, t1: i64, t2: i64)
    requires
        a.floor_price <= a.starting_price,
        a.duration > 0,
        a.starting_time <= t1 <= t2,
    ensures
        spec_price(a, t2) <= spec_price(a, t1),
{
    let d = a.starting_price - a.floor_price;
    lemma_mul_inequality(elapsed(a, t1), elapsed(a, t2), d);
    assert(elapsed(a, t1) * d == d * elapsed(a, t1)) by (nonlinear_arith);
    assert(elapsed(a, t2) * d == d * elapsed(a, t2)) by (nonlinear_arith);
    lemma_div_is_ordered(d * elapsed(a, t1), d * elapsed(a, t2), a.duration as int);
}

/// The price is the starting price when the auction starts.
pub proof fn lemma_price_at_start(a: Auction)
    requires
        a.floor_price <= a.starting_price,
        a.duration > 0,
    ensures
        spec_price(a, a.starting_time) == a.starting_price,
{
    let d = a.starting_price - a.floor_price;
    assert(elapsed(a, a.starting_time) == 0);
    assert(d * 0 == 0) by (nonlinear_arith);
}

/// The price is the floor price from the auction's end on.
pub proof fn lemma_price_at_end(a: Auction, t: i64)
    requires
        a.floor_price <= a.starting_price,
        a.duration > 0,
        t >= a.starting_time + a.duration,
    ensures
        spec_price(a, t) == a.floor_price,
{
    let d = a.starting_price - a.floor_price;
    assert(elapsed(a, t) == a.duration as int);
    lemma_div_multiples_vanish(d, a.duration as int);
    assert(d * (a.duration as int) == (a.duration as int) * d) by (nonlinear_arith);
}

/// What two purchases of the same auction pay: at two times at which both
/// go through, the later one pays at most the earlier, and both pay between
/// the floor and the starting price; a purchase at the start pays the
/// starting price and one at the end pays the floor price.
pub proof fn lemma_buy_prices(a: Auction, t1: i64, t2: i64, lamports1: u64, lamports2: u64)
    requires
        a.floor_price <= a.starting_price,
        a.duration > 0,
        t1 <= t2,
        buy_outcome(a, t1, lamports1) is Ok,
        buy_outcome(a, t2, lamports2) is Ok,
    ensures
        a.floor_price <= buy_outcome(a, t2, lamports2)->Ok_0 <= buy_outcome(a, t1, lamports1)->Ok_0
            <= a.starting_price,
        t1 == a.starting_time ==> buy_outcome(a, t1, lamports1)->Ok_0 == a.starting_price,
        t2 == a.starting_time + a.duration ==> buy_outcome(a, t2, lamports2)->Ok_0 == a.floor_price,
{
    lemma_price_within_bounds(a, t1, lamports1);
    lemma_price_within_bounds(a, t2, lamports2);
    lemma_price_non_increasing(a, t1, t2);
    lemma_price_at_start(a);
    if t2 == a.starting_time + a.duration {
        lemma_price_at_end(a, t2);
    }
}

/// The price a purchase pays falls linearly with the time elapsed: with
/// `e` the seconds since the start, capped at the duration `D`, and
/// `drop = starting_price - floor_price`, the amount taken off the starting
/// price is `drop * e / D` rounded down, that is the one number `k` with
/// `k * D <= drop * e < (k + 1) * D`.
pub proof fn lemma_buy_price_is_linear(a: Auction, now: i64, buyer_lamports: u64)
    requires
        a.floor_price <= a.starting_price,
        a.duration > 0,
        buy_outcome(a, now, buyer_lamports) is Ok,
    ensures
        ({
            let paid = buy_outcome(a, now, buyer_lamports)->Ok_0 as int;
            let e: int = if now - a.starting_time < a.duration { now - a.starting_time } else { a.duration as int };
            let drop = a.starting_price - a.floor_price;
            let k = a.starting_price - paid;
            &&& 0 <= e <= a.duration
            &&& k * a.duration <= drop * e
            &&& drop * e < (k + 1) * a.duration
        }),
{
    lemma_price_within_bounds(a, now, buyer_lamports);
    let d = a.starting_price - a.floor_price;
    let e = elapsed(a, now);
    let big_d = a.duration as int;
    assert(0 <= e <= big_d);
    assert(0 <= d * e) by (nonlinear_arith)
        requires 0 <= d, 0 <= e;
    lemma_fundamental_div_mod(d * e, big_d);
    lemma_mod_pos_bound(d * e, big_d);
    let q = (d * e) / big_d;
    assert(a.starting_price - spec_price(a, now) == q);
    assert(q * big_d == big_d * q) by (nonlinear_arith);
    assert((q + 1) * big_d == big_d * q + big_d) by (nonlinear_arith);
}

} // verus!
