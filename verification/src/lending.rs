//! The lending contract's interest-accrual kernel and vocabulary types.
//!
//! Interest accrues linearly over the loan's term: each accrual charges
//! the outstanding principal at the loan's basis-point rate, prorated by
//! the share of the term that elapsed since the last accrual, and never
//! past the due time.

use vstd::arithmetic::div_mod::{lemma_div_nonincreasing, lemma_div_pos_is_pos};
use vstd::arithmetic::mul::lemma_mul_nonnegative;
use vstd::prelude::*;

verus! {

#[derive(Clone, Copy, Debug, PartialEq, Eq, Structural)]
pub enum AssetType {
    Token,
    NFT,
}

/// A token amount or a single NFT, under the contract that issues it.
#[derive(Clone, Copy, Debug, PartialEq, Eq, Structural)]
pub struct Asset {
    pub asset_type: AssetType,
    pub contract_id: u64,
    /// Token amount, or 1 for an NFT.
    pub amount: i128,
    /// Only used for NFT assets.
    pub nft_id: u32,
}

/// The lender-chosen terms of a loan offer.
#[derive(Clone, Copy, Debug, PartialEq, Eq, Structural)]
pub struct LoanTerms {
    pub duration_secs: u64,
    pub interest_bps: u32,
    pub max_extension_secs: u64,
}

#[derive(Clone, Copy, Debug, PartialEq, Eq, Structural)]
pub enum OfferStatus {
    Open,
    Cancelled,
    Accepted,
}

#[derive(Clone, Copy, Debug, PartialEq, Eq, Structural)]
pub enum LoanStatus {
    Active,
    Repaid,
    Liquidated,
}

/// A running loan.
#[derive(Clone, Copy, Debug, PartialEq, Eq, Structural)]
pub struct Loan {
    pub loan_id: u64,
    pub offer_id: u64,
    pub lender: u64,
    pub borrower: u64,
    pub loan_asset: Asset,
    pub collateral_asset: Asset,
    pub repayment_token: u64,
    pub principal: i128,
    pub outstanding_principal: i128,
    pub accrued_interest: i128,
    pub start_time: u64,
    pub due_time: u64,
    pub last_accrual_time: u64,
    pub status: LoanStatus,
    pub terms: LoanTerms,
    pub extension_secs: u64,
}

/// The moment up to which interest accrues at `now`: never past due time.
pub open spec fn accrual_end(loan: Loan, now: u64) -> u64 {
    if now < loan.due_time {
        now
    } else {
        loan.due_time
    }
}

/// The interest one accrual at `now` charges: the outstanding principal at
/// the loan's rate, prorated by the elapsed share of the term; zero when
/// nothing elapsed, the term is empty, or nothing is outstanding.
pub open spec fn accrued_delta(loan: Loan, now: u64) -> int {
    let end = accrual_end(loan, now);
    if end <= loan.last_accrual_time {
        0
    } else if loan.due_time - loan.start_time == 0 || loan.outstanding_principal == 0 {
        0
    } else {
        loan.outstanding_principal * (loan.terms.interest_bps as int) * (end
            - loan.last_accrual_time) / (loan.due_time - loan.start_time) / 10_000
    }
}

pub struct LendingContract;

impl LendingContract {
    /// Accrues interest on a loan up to `now` (capped at the due time):
    /// adds the prorated charge to `accrued_interest` and advances
    /// `last_accrual_time`. With nothing elapsed the loan is untouched.
    pub fn accrue_interest(loan: &mut Loan, now: u64)
        requires
            old(loan).start_time <= old(loan).due_time,
            0 <= old(loan).outstanding_principal,
            0 <= old(loan).accrued_interest,
            old(loan).outstanding_principal * (old(loan).terms.interest_bps as int) * (accrual_end(
                *old(loan),
                now,
            ) - old(loan).last_accrual_time) <= i128::MAX,
            old(loan).accrued_interest + accrued_delta(*old(loan), now) <= i128::MAX,
        ensures
            *final(loan) == (Loan {
                accrued_interest: (old(loan).accrued_interest + accrued_delta(
                    *old(loan),
                    now,
                )) as i128,
                last_accrual_time: if accrual_end(*old(loan), now) <= old(loan).last_accrual_time {
                    old(loan).last_accrual_time
                } else {
                    accrual_end(*old(loan), now)
                },
                ..*old(loan)
            }),
    {
        let end: u64 = if now < loan.due_time {
            now
        } else {
            loan.due_time
        };
        if end <= loan.last_accrual_time {
            return;
        }
        let duration: u64 = loan.due_time - loan.start_time;
        if duration == 0 || loan.outstanding_principal == 0 {
            loan.last_accrual_time = end;
            return;
        }
        let delta: u64 = end - loan.last_accrual_time;
        proof {
            let p = loan.outstanding_principal as int;
            let b = loan.terms.interest_bps as int;
            let d = delta as int;
            lemma_mul_nonnegative(p, b);
            assert(p * b <= p * b * d) by (nonlinear_arith)
                requires
                    0 <= p * b,
                    1 <= d,
            ;
            assert(0 <= p * b * d) by (nonlinear_arith)
                requires
                    0 <= p * b,
                    0 <= d,
            ;
            lemma_div_pos_is_pos(p * b * d, duration as int);
            lemma_div_nonincreasing(p * b * d, duration as int);
            lemma_div_pos_is_pos(p * b * d / (duration as int), 10_000);
            lemma_div_nonincreasing(p * b * d / (duration as int), 10_000);
        }
        let scaled: i128 = loan.outstanding_principal * (loan.terms.interest_bps as i128);
        let interest: i128 = scaled * (delta as i128) / (duration as i128) / 10_000;
        loan.accrued_interest = loan.accrued_interest + interest;
        loan.last_accrual_time = end;
    }
}

} // verus!
