//! The premium calculator: a pure function from coverage type, amount and
//! period to the premium owed, with its exact mathematical specification
//! and the monotonicity lemmas that callers and auditors rely on.

use vstd::arithmetic::div_mod::{
    lemma_div_is_ordered, lemma_div_of0, lemma_div_pos_is_pos,
};
use vstd::arithmetic::mul::{
    lemma_mul_inequality, lemma_mul_is_commutative, lemma_mul_nonnegative,
    lemma_mul_strictly_positive, lemma_mul_unary_negation, lemma_mul_upper_bound,
};
use vstd::prelude::*;

use crate::insurance::{CoverageType, InsuranceConfig, InsuranceError};

verus! {

pub const SECONDS_PER_DAY: u64 = 86_400;

pub const BASIS_POINTS: u64 = 10_000;

/// The configured rate multiplier for a coverage type, as a percentage.
pub open spec fn coverage_multiplier(cfg: InsuranceConfig, coverage_type: CoverageType) -> u32 {
    match coverage_type {
        CoverageType::NFT => cfg.nft_multiplier,
        CoverageType::Token => cfg.token_multiplier,
        CoverageType::Combined => cfg.combined_multiplier,
    }
}

/// The annual rate in basis points: the base rate scaled by the coverage
/// type's multiplier, which is itself a percentage.
pub open spec fn annual_rate_of(cfg: InsuranceConfig, coverage_type: CoverageType) -> int {
    (cfg.base_premium_rate * coverage_multiplier(cfg, coverage_type)) / 100
}

/// Whole days covered by a period; sub-day remainders are dropped.
pub open spec fn coverage_days(period: u64) -> int {
    period as int / (SECONDS_PER_DAY as int)
}

/// The premium before the floor: amount x annual rate x covered days,
/// scaled down by a year of days and the basis-point denominator.
pub open spec fn raw_premium(
    cfg: InsuranceConfig,
    coverage_type: CoverageType,
    amount: i128,
    period: u64,
) -> int {
    amount * annual_rate_of(cfg, coverage_type) * coverage_days(period) / (
    365 * BASIS_POINTS as int)
}

/// The premium owed: the raw premium, floored at 1 so that no valid
/// coverage is free.
pub open spec fn premium_of(
    cfg: InsuranceConfig,
    coverage_type: CoverageType,
    amount: i128,
    period: u64,
) -> int {
    if raw_premium(cfg, coverage_type, amount, period) < 1 {
        1
    } else {
        raw_premium(cfg, coverage_type, amount, period)
    }
}

/// Whether the premium computation stays inside the 128-bit range.
pub open spec fn premium_fits(
    cfg: InsuranceConfig,
    coverage_type: CoverageType,
    amount: i128,
    period: u64,
) -> bool {
    ||| amount <= 0
    ||| annual_rate_of(cfg, coverage_type) == 0
    ||| coverage_days(period) == 0
    ||| {
        &&& amount * annual_rate_of(cfg, coverage_type) <= i128::MAX
        &&& amount * annual_rate_of(cfg, coverage_type) * coverage_days(period) <= i128::MAX
    }
}

/// The annual rate is never negative.
pub proof fn lemma_annual_rate_nonneg(cfg: InsuranceConfig, coverage_type: CoverageType)
    ensures
        0 <= annual_rate_of(cfg, coverage_type),
{
    lemma_mul_nonnegative(
        cfg.base_premium_rate as int,
        coverage_multiplier(cfg, coverage_type) as int,
    );
    lemma_div_pos_is_pos(
        cfg.base_premium_rate * coverage_multiplier(cfg, coverage_type),
        100,
    );
}

/// The covered-day count is never negative.
pub proof fn lemma_days_nonneg(period: u64)
    ensures
        0 <= coverage_days(period),
{
    lemma_div_pos_is_pos(period as int, SECONDS_PER_DAY as int);
}

/// Computes the premium for the given coverage. Fails only when an
/// intermediate product leaves the 128-bit range.
pub fn compute_premium(
    cfg: &InsuranceConfig,
    coverage_type: CoverageType,
    coverage_amount: i128,
    coverage_period: u64,
) -> (r: Result<i128, InsuranceError>)
    ensures
        r is Ok <==> premium_fits(*cfg, coverage_type, coverage_amount, coverage_period),
        r is Ok ==> r->Ok_0 == premium_of(*cfg, coverage_type, coverage_amount, coverage_period),
        r is Err ==> r->Err_0 == InsuranceError::ArithmeticOverflow,
{
    let multiplier: u32 = match coverage_type {
        CoverageType::NFT => cfg.nft_multiplier,
        CoverageType::Token => cfg.token_multiplier,
        CoverageType::Combined => cfg.combined_multiplier,
    };
    proof {
        lemma_mul_upper_bound(
            cfg.base_premium_rate as int,
            u32::MAX as int,
            multiplier as int,
            u32::MAX as int,
        );
    }
    let rate_product: u64 = (cfg.base_premium_rate as u64) * (multiplier as u64);
    let annual_rate: u64 = rate_product / 100;
    let days: u64 = coverage_period / SECONDS_PER_DAY;
    let ghost annual = annual_rate_of(*cfg, coverage_type);
    let ghost raw = raw_premium(*cfg, coverage_type, coverage_amount, coverage_period);

    if coverage_amount <= 0 {
        proof {
            lemma_raw_premium_nonpositive(*cfg, coverage_type, coverage_amount, coverage_period);
        }
        return Ok(1);
    }
    if annual_rate == 0 || days == 0 {
        proof {
            assert(annual == annual_rate as int);
            assert(days as int == coverage_days(coverage_period));
            if annual_rate == 0 {
                assert(coverage_amount * annual == 0) by (nonlinear_arith)
                    requires
                        annual == 0,
                ;
                assert(coverage_amount * annual * coverage_days(coverage_period) == 0)
                    by (nonlinear_arith)
                    requires
                        coverage_amount * annual == 0,
                ;
            } else {
                assert(coverage_amount * annual * coverage_days(coverage_period) == 0)
                    by (nonlinear_arith)
                    requires
                        coverage_days(coverage_period) == 0,
                ;
            }
            lemma_div_of0(3_650_000);
            assert(raw == 0);
        }
        return Ok(1);
    }
    let step1: i128 = match coverage_amount.checked_mul(annual_rate as i128) {
        Some(v) => v,
        None => {
            proof {
                lemma_mul_strictly_positive(coverage_amount as int, annual);
            }
            return Err(InsuranceError::ArithmeticOverflow);
        },
    };
    let scaled: i128 = match step1.checked_mul(days as i128) {
        Some(v) => v,
        None => {
            proof {
                lemma_mul_strictly_positive(coverage_amount as int, annual);
                lemma_mul_strictly_positive(step1 as int, days as int);
            }
            return Err(InsuranceError::ArithmeticOverflow);
        },
    };
    proof {
        lemma_mul_strictly_positive(coverage_amount as int, annual);
        lemma_mul_strictly_positive(step1 as int, days as int);
        lemma_div_pos_is_pos(scaled as int, 3_650_000);
    }
    let quotient: i128 = scaled / 3_650_000;
    if quotient < 1 {
        Ok(1)
    } else {
        Ok(quotient)
    }
}

/// The premium never drops when the coverage amount grows, for a fixed
/// coverage type and period.
pub proof fn lemma_premium_monotone_in_amount(
    cfg: InsuranceConfig,
    coverage_type: CoverageType,
    amount1: i128,
    amount2: i128,
    period: u64,
)
    requires
        amount1 <= amount2,
    ensures
        premium_of(cfg, coverage_type, amount1, period) <= premium_of(
            cfg,
            coverage_type,
            amount2,
            period,
        ),
{
    let annual = annual_rate_of(cfg, coverage_type);
    let days = coverage_days(period);
    lemma_annual_rate_nonneg(cfg, coverage_type);
    lemma_days_nonneg(period);
    lemma_mul_inequality(amount1 as int, amount2 as int, annual);
    lemma_mul_inequality(amount1 * annual, amount2 * annual, days);
    lemma_div_is_ordered(amount1 * annual * days, amount2 * annual * days, 3_650_000);
}

/// The premium never drops when the coverage period grows, for a fixed
/// coverage type and amount.
pub proof fn lemma_premium_monotone_in_period(
    cfg: InsuranceConfig,
    coverage_type: CoverageType,
    amount: i128,
    period1: u64,
    period2: u64,
)
    requires
        period1 <= period2,
    ensures
        premium_of(cfg, coverage_type, amount, period1) <= premium_of(
            cfg,
            coverage_type,
            amount,
            period2,
        ),
{
    let annual = annual_rate_of(cfg, coverage_type);
    lemma_div_is_ordered(period1 as int, period2 as int, SECONDS_PER_DAY as int);
    let days1 = coverage_days(period1);
    let days2 = coverage_days(period2);
    if amount >= 0 {
        lemma_annual_rate_nonneg(cfg, coverage_type);
        lemma_mul_nonnegative(amount as int, annual);
        lemma_mul_inequality(days1, days2, amount * annual);
        lemma_mul_is_commutative(amount * annual, days1);
        lemma_mul_is_commutative(amount * annual, days2);
        lemma_div_is_ordered(amount * annual * days1, amount * annual * days2, 3_650_000);
    } else {
        lemma_raw_premium_nonpositive(cfg, coverage_type, amount, period1);
        lemma_raw_premium_nonpositive(cfg, coverage_type, amount, period2);
    }
}

/// A coverage type with a higher configured multiplier never prices lower,
/// for a fixed amount and period.
pub proof fn lemma_premium_monotone_in_multiplier(
    cfg: InsuranceConfig,
    type1: CoverageType,
    type2: CoverageType,
    amount: i128,
    period: u64,
)
    requires
        coverage_multiplier(cfg, type1) <= coverage_multiplier(cfg, type2),
    ensures
        premium_of(cfg, type1, amount, period) <= premium_of(cfg, type2, amount, period),
{
    let days = coverage_days(period);
    let annual1 = annual_rate_of(cfg, type1);
    let annual2 = annual_rate_of(cfg, type2);
    lemma_mul_inequality(
        coverage_multiplier(cfg, type1) as int,
        coverage_multiplier(cfg, type2) as int,
        cfg.base_premium_rate as int,
    );
    lemma_mul_is_commutative(coverage_multiplier(cfg, type1) as int, cfg.base_premium_rate as int);
    lemma_mul_is_commutative(coverage_multiplier(cfg, type2) as int, cfg.base_premium_rate as int);
    lemma_div_is_ordered(
        cfg.base_premium_rate * coverage_multiplier(cfg, type1),
        cfg.base_premium_rate * coverage_multiplier(cfg, type2),
        100,
    );
    lemma_days_nonneg(period);
    if amount >= 0 {
        lemma_annual_rate_nonneg(cfg, type1);
        lemma_mul_inequality(annual1, annual2, amount as int);
        lemma_mul_is_commutative(amount as int, annual1);
        lemma_mul_is_commutative(amount as int, annual2);
        lemma_mul_inequality(amount * annual1, amount * annual2, days);
        lemma_div_is_ordered(amount * annual1 * days, amount * annual2 * days, 3_650_000);
    } else {
        lemma_raw_premium_nonpositive(cfg, type1, amount, period);
        lemma_raw_premium_nonpositive(cfg, type2, amount, period);
    }
}

/// Coverage types price in the order of their configured multipliers:
/// whenever the multipliers are ordered token <= NFT <= combined — as the
/// initialization defaults 100 <= 150 <= 180 are — combined coverage costs
/// at least NFT coverage, which costs at least token coverage, for any one
/// amount and period.
pub proof fn lemma_premium_ordered_by_coverage_type(
    cfg: InsuranceConfig,
    amount: i128,
    period: u64,
)
    requires
        cfg.token_multiplier <= cfg.nft_multiplier <= cfg.combined_multiplier,
    ensures
        premium_of(cfg, CoverageType::Token, amount, period) <= premium_of(
            cfg,
            CoverageType::NFT,
            amount,
            period,
        ),
        premium_of(cfg, CoverageType::NFT, amount, period) <= premium_of(
            cfg,
            CoverageType::Combined,
            amount,
            period,
        ),
{
    lemma_premium_monotone_in_multiplier(cfg, CoverageType::Token, CoverageType::NFT, amount, period);
    lemma_premium_monotone_in_multiplier(
        cfg,
        CoverageType::NFT,
        CoverageType::Combined,
        amount,
        period,
    );
}

/// For a non-positive amount the raw premium is non-positive, so the floor
/// takes over and the premium is exactly 1.
proof fn lemma_raw_premium_nonpositive(
    cfg: InsuranceConfig,
    coverage_type: CoverageType,
    amount: i128,
    period: u64,
)
    requires
        amount <= 0,
    ensures
        raw_premium(cfg, coverage_type, amount, period) <= 0,
{
    let annual = annual_rate_of(cfg, coverage_type);
    let days = coverage_days(period);
    lemma_annual_rate_nonneg(cfg, coverage_type);
    lemma_days_nonneg(period);
    lemma_mul_nonnegative(-(amount as int), annual);
    lemma_mul_unary_negation(amount as int, annual);
    lemma_mul_nonnegative(-(amount * annual), days);
    lemma_mul_unary_negation(amount * annual, days);
    lemma_div_is_ordered(amount * annual * days, 0, 3_650_000);
    lemma_div_of0(3_650_000);
}

} // verus!

