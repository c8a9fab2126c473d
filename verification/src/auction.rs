//! The auction engine's pricing kernel and vocabulary types.
//!
//! The platform's auction contract runs English and Dutch auctions; the
//! piece of it that is pure computation — the linearly decaying Dutch
//! price — lives here with an exact contract.

use vstd::arithmetic::div_mod::{lemma_div_is_ordered, lemma_div_pos_is_pos};
use vstd::arithmetic::mul::{
    lemma_mul_inequality, lemma_mul_is_commutative, lemma_mul_nonnegative,
};
use vstd::prelude::*;

verus! {

#[derive(Clone, Copy, Debug, PartialEq, Eq, Structural)]
pub enum AuctionType {
    English,
    Dutch,
}

/// The seller-chosen parameters of an auction.
#[derive(Clone, Copy, Debug, PartialEq, Eq, Structural)]
pub struct AuctionSettings {
    pub start_time: u64,
    pub end_time: u64,
    pub starting_price: i128,
    /// The floor a Dutch price decays to, and the minimum acceptable bid.
    pub reserve_price: i128,
    pub buy_now_price: i128,
    pub min_bid_increment: i128,
}

/// The current price of a Dutch auction: the starting price before the
/// auction opens, the reserve after it closes, and in between the starting
/// price minus a drop linear in elapsed time.
pub open spec fn dutch_price(settings: AuctionSettings, current_time: u64) -> int {
    if current_time <= settings.start_time {
        settings.starting_price as int
    } else if current_time >= settings.end_time {
        settings.reserve_price as int
    } else {
        settings.starting_price - (settings.starting_price - settings.reserve_price) * (
        current_time - settings.start_time) / (settings.end_time - settings.start_time)
    }
}

pub struct AuctionContract;

impl AuctionContract {
    /// The price a Dutch-auction buyer pays at `current_time`: it starts
    /// at `starting_price`, decays linearly over the auction window, and
    /// never falls below `reserve_price`.
    pub fn calculate_dutch_price(settings: &AuctionSettings, current_time: u64) -> (r: i128)
        requires
            0 <= settings.reserve_price <= settings.starting_price,
            (settings.starting_price - settings.reserve_price) * (settings.end_time
                - settings.start_time) <= i128::MAX,
        ensures
            r == dutch_price(*settings, current_time),
            settings.reserve_price <= r <= settings.starting_price,
    {
        if current_time <= settings.start_time {
            return settings.starting_price;
        }
        if current_time >= settings.end_time {
            return settings.reserve_price;
        }
        let total_duration: u64 = settings.end_time - settings.start_time;
        let elapsed: u64 = current_time - settings.start_time;
        let price_drop_range: i128 = settings.starting_price - settings.reserve_price;
        proof {
            lemma_mul_nonnegative(price_drop_range as int, elapsed as int);
            lemma_mul_inequality(elapsed as int, total_duration as int, price_drop_range as int);
            lemma_mul_is_commutative(elapsed as int, price_drop_range as int);
            lemma_mul_is_commutative(total_duration as int, price_drop_range as int);
            lemma_div_pos_is_pos(price_drop_range * (elapsed as int), total_duration as int);
            lemma_div_is_ordered(
                price_drop_range * (elapsed as int),
                price_drop_range * (total_duration as int),
                total_duration as int,
            );
            vstd::arithmetic::div_mod::lemma_div_multiples_vanish(
                price_drop_range as int,
                total_duration as int,
            );
        }
        let drop_amount: i128 = (price_drop_range * (elapsed as i128)) / (total_duration as i128);
        settings.starting_price - drop_amount
    }
}

} // verus!
