use insurance::insurance::{
    AssetType, ClaimStatus, CoverageType, InsuranceContract, InsuranceError, PolicyStatus,
};
use insurance::ledger::TokenLedger;

const ADMIN: u64 = 1;
const USER: u64 = 2;
const CONTRACT: u64 = 100;
const TOKEN: u64 = 50;
const ASSET: u64 = 77;

fn setup() -> (InsuranceContract, TokenLedger) {
    let mut contract = InsuranceContract::new(CONTRACT);
    let ledger = TokenLedger::new();
    contract.initialize(ADMIN, TOKEN, 100).unwrap();
    (contract, ledger)
}

#[test]
fn test_initialization() {
    let (contract, _) = setup();

    let config = contract.get_config().unwrap();
    assert_eq!(config.admin, ADMIN);
    assert_eq!(config.base_premium_rate, 100);
    assert_eq!(config.nft_multiplier, 150);
    assert_eq!(config.token_multiplier, 100);
    assert_eq!(config.combined_multiplier, 180);
    assert!(!config.paused);

    assert_eq!(contract.get_premium_pool(), 0);
    assert_eq!(contract.get_total_policies(), 0);
    assert_eq!(contract.get_total_claims(), 0);
}

#[test]
fn test_double_initialization() {
    let (mut contract, _) = setup();

    let r = contract.initialize(ADMIN, TOKEN, 100);
    assert_eq!(r, Err(InsuranceError::AlreadyInitialized));
}

#[test]
fn test_purchase_policy_token_coverage() {
    let (mut contract, mut ledger) = setup();

    let coverage_amount = 1_000_000_000i128;
    let coverage_period = 30 * 86_400u64;

    let expected_premium = contract
        .calculate_premium(CoverageType::Token, coverage_amount, coverage_period)
        .unwrap();

    assert!(ledger.mint(USER, expected_premium * 2));

    contract
        .purchase_policy(
            &mut ledger,
            USER,
            CoverageType::Token,
            coverage_amount,
            coverage_period,
            ASSET,
            1000,
        )
        .unwrap();

    let policy = contract.get_policy(USER).unwrap();
    assert_eq!(policy.owner, USER);
    assert_eq!(policy.coverage_type, CoverageType::Token);
    assert_eq!(policy.coverage_amount, coverage_amount);
    assert_eq!(policy.premium_paid, expected_premium);
    assert_eq!(policy.status, PolicyStatus::Active);
    assert_eq!(policy.start_time, 1000);
    assert_eq!(policy.end_time, 1000 + coverage_period);

    assert_eq!(contract.get_premium_pool(), expected_premium);
    assert_eq!(contract.get_total_policies(), 1);
}

#[test]
fn test_purchase_policy_nft_coverage() {
    let (mut contract, mut ledger) = setup();

    let coverage_amount = 500_000_000i128;
    let coverage_period = 90 * 86_400u64;

    let expected_premium = contract
        .calculate_premium(CoverageType::NFT, coverage_amount, coverage_period)
        .unwrap();

    assert!(ledger.mint(USER, expected_premium * 2));

    contract
        .purchase_policy(
            &mut ledger,
            USER,
            CoverageType::NFT,
            coverage_amount,
            coverage_period,
            ASSET,
            1000,
        )
        .unwrap();

    let policy = contract.get_policy(USER).unwrap();
    assert_eq!(policy.coverage_type, CoverageType::NFT);
    assert!(policy.premium_paid > 0);
}

#[test]
fn test_premium_calculation() {
    let (contract, _) = setup();

    let coverage_amount = 1_000_000_000i128;
    let coverage_period = 365 * 86_400u64;

    let token_premium = contract
        .calculate_premium(CoverageType::Token, coverage_amount, coverage_period)
        .unwrap();
    assert!(token_premium > 0);

    let nft_premium = contract
        .calculate_premium(CoverageType::NFT, coverage_amount, coverage_period)
        .unwrap();
    assert!(nft_premium > token_premium);

    let combined_premium = contract
        .calculate_premium(CoverageType::Combined, coverage_amount, coverage_period)
        .unwrap();
    assert!(combined_premium > nft_premium);
}

#[test]
fn test_purchase_policy_exceeds_max_coverage() {
    let (mut contract, mut ledger) = setup();

    let config = contract.get_config().unwrap();
    let excessive_amount = config.max_coverage_amount + 1;

    let r = contract.purchase_policy(
        &mut ledger,
        USER,
        CoverageType::Token,
        excessive_amount,
        30 * 86_400,
        ASSET,
        1000,
    );
    assert_eq!(r, Err(InsuranceError::InvalidCoverageAmount));
}

#[test]
fn test_purchase_policy_period_too_short() {
    let (mut contract, mut ledger) = setup();

    let r = contract.purchase_policy(
        &mut ledger,
        USER,
        CoverageType::Token,
        1_000_000_000,
        86_400,
        ASSET,
        1000,
    );
    assert_eq!(r, Err(InsuranceError::InvalidCoveragePeriod));
}

#[test]
fn test_cannot_purchase_multiple_active_policies() {
    let (mut contract, mut ledger) = setup();

    assert!(ledger.mint(USER, 10_000_000_000));

    contract
        .purchase_policy(
            &mut ledger,
            USER,
            CoverageType::Token,
            1_000_000_000,
            30 * 86_400,
            ASSET,
            1000,
        )
        .unwrap();

    let r = contract.purchase_policy(
        &mut ledger,
        USER,
        CoverageType::NFT,
        500_000_000,
        30 * 86_400,
        ASSET,
        1000,
    );
    assert_eq!(r, Err(InsuranceError::ActivePolicyExists));
}

#[test]
fn test_renew_policy() {
    let (mut contract, mut ledger) = setup();

    assert!(ledger.mint(USER, 10_000_000_000));

    let coverage_amount = 1_000_000_000i128;
    let initial_period = 30 * 86_400u64;

    contract
        .purchase_policy(
            &mut ledger,
            USER,
            CoverageType::Token,
            coverage_amount,
            initial_period,
            ASSET,
            1000,
        )
        .unwrap();

    let initial_premium = contract.get_policy(USER).unwrap().premium_paid;

    let additional_period = 30 * 86_400u64;
    contract
        .renew_policy(&mut ledger, USER, additional_period, 1000)
        .unwrap();

    let renewed = contract.get_policy(USER).unwrap();
    assert_eq!(renewed.end_time, 1000 + initial_period + additional_period);
    assert!(renewed.premium_paid > initial_premium);
    assert_eq!(renewed.status, PolicyStatus::Active);
}

#[test]
fn test_renew_expired_policy() {
    let (mut contract, mut ledger) = setup();

    assert!(ledger.mint(USER, 10_000_000_000));

    let coverage_period = 30 * 86_400u64;

    contract
        .purchase_policy(
            &mut ledger,
            USER,
            CoverageType::Token,
            1_000_000_000,
            coverage_period,
            ASSET,
            1000,
        )
        .unwrap();

    let later = 1000 + coverage_period + 1000;
    contract
        .renew_policy(&mut ledger, USER, 30 * 86_400, later)
        .unwrap();

    let renewed = contract.get_policy(USER).unwrap();
    assert_eq!(renewed.status, PolicyStatus::Active);
}

#[test]
fn test_cancel_policy_with_refund() {
    let (mut contract, mut ledger) = setup();

    let coverage_period = 30 * 86_400u64;
    let coverage_amount = 1_000_000_000i128;

    let premium = contract
        .calculate_premium(CoverageType::Token, coverage_amount, coverage_period)
        .unwrap();

    assert!(ledger.mint(USER, premium));

    contract
        .purchase_policy(
            &mut ledger,
            USER,
            CoverageType::Token,
            coverage_amount,
            coverage_period,
            ASSET,
            1000,
        )
        .unwrap();

    let initial_balance = ledger.balance(USER);

    contract
        .cancel_policy(&mut ledger, USER, 1000 + 10 * 86_400)
        .unwrap();

    let final_balance = ledger.balance(USER);
    assert!(final_balance > initial_balance);

    let policy = contract.get_policy(USER).unwrap();
    assert_eq!(policy.status, PolicyStatus::Cancelled);
}

#[test]
fn test_cannot_cancel_already_cancelled() {
    let (mut contract, mut ledger) = setup();

    assert!(ledger.mint(USER, 10_000_000_000));

    contract
        .purchase_policy(
            &mut ledger,
            USER,
            CoverageType::Token,
            1_000_000_000,
            30 * 86_400,
            ASSET,
            1000,
        )
        .unwrap();

    contract.cancel_policy(&mut ledger, USER, 1000).unwrap();
    let r = contract.cancel_policy(&mut ledger, USER, 1000);
    assert_eq!(r, Err(InsuranceError::PolicyNotActive));
}

#[test]
fn test_submit_claim() {
    let (mut contract, mut ledger) = setup();

    assert!(ledger.mint(USER, 10_000_000_000));

    let coverage_amount = 1_000_000_000i128;

    contract
        .purchase_policy(
            &mut ledger,
            USER,
            CoverageType::Token,
            coverage_amount,
            30 * 86_400,
            ASSET,
            1000,
        )
        .unwrap();

    let claim_amount = 500_000_000i128;
    let claim_id = contract
        .submit_claim(
            USER,
            AssetType::Token,
            ASSET,
            claim_amount,
            String::from("Lost tokens in hack"),
            1000 + 10 * 86_400,
        )
        .unwrap();

    assert_eq!(claim_id, 1);

    let claim = contract.get_claim(claim_id).unwrap();
    assert_eq!(claim.claim_id, claim_id);
    assert_eq!(claim.policy_owner, USER);
    assert_eq!(claim.asset_type, AssetType::Token);
    assert_eq!(claim.claim_amount, claim_amount);
    assert_eq!(claim.status, ClaimStatus::Submitted);

    let user_claims = contract.get_user_claims(USER);
    assert_eq!(user_claims.len(), 1);
    assert_eq!(user_claims[0], claim_id);

    assert_eq!(contract.get_total_claims(), 1);
}

#[test]
fn test_submit_claim_without_policy() {
    let (mut contract, _) = setup();

    let r = contract.submit_claim(
        USER,
        AssetType::Token,
        ASSET,
        1_000_000_000,
        String::from("Test"),
        1000,
    );
    assert_eq!(r, Err(InsuranceError::PolicyNotFound));
}

#[test]
fn test_submit_claim_before_coverage_starts() {
    let (mut contract, mut ledger) = setup();

    assert!(ledger.mint(USER, 10_000_000_000));

    contract
        .purchase_policy(
            &mut ledger,
            USER,
            CoverageType::Token,
            1_000_000_000,
            30 * 86_400,
            ASSET,
            1000,
        )
        .unwrap();

    let r = contract.submit_claim(
        USER,
        AssetType::Token,
        ASSET,
        500_000_000,
        String::from("Test"),
        999,
    );
    assert_eq!(r, Err(InsuranceError::OutsideCoveragePeriod));
}

#[test]
fn test_submit_claim_after_coverage_ends() {
    let (mut contract, mut ledger) = setup();

    assert!(ledger.mint(USER, 10_000_000_000));

    let coverage_period = 30 * 86_400u64;

    contract
        .purchase_policy(
            &mut ledger,
            USER,
            CoverageType::Token,
            1_000_000_000,
            coverage_period,
            ASSET,
            1000,
        )
        .unwrap();

    let r = contract.submit_claim(
        USER,
        AssetType::Token,
        ASSET,
        500_000_000,
        String::from("Test"),
        1000 + coverage_period + 1,
    );
    assert_eq!(r, Err(InsuranceError::OutsideCoveragePeriod));
}

#[test]
fn test_submit_claim_exceeds_coverage() {
    let (mut contract, mut ledger) = setup();

    assert!(ledger.mint(USER, 10_000_000_000));

    let coverage_amount = 1_000_000_000i128;

    contract
        .purchase_policy(
            &mut ledger,
            USER,
            CoverageType::Token,
            coverage_amount,
            30 * 86_400,
            ASSET,
            1000,
        )
        .unwrap();

    let r = contract.submit_claim(
        USER,
        AssetType::Token,
        ASSET,
        coverage_amount + 1,
        String::from("Test"),
        1000 + 10 * 86_400,
    );
    assert_eq!(r, Err(InsuranceError::InvalidClaimAmount));
}

#[test]
fn test_submit_claim_wrong_asset_type() {
    let (mut contract, mut ledger) = setup();

    assert!(ledger.mint(USER, 10_000_000_000));

    contract
        .purchase_policy(
            &mut ledger,
            USER,
            CoverageType::NFT,
            1_000_000_000,
            30 * 86_400,
            ASSET,
            1000,
        )
        .unwrap();

    let r = contract.submit_claim(
        USER,
        AssetType::Token,
        ASSET,
        500_000_000,
        String::from("Test"),
        1000 + 10 * 86_400,
    );
    assert_eq!(r, Err(InsuranceError::CoverageTypeMismatch));
}

#[test]
fn test_review_and_approve_claim() {
    let (mut contract, mut ledger) = setup();

    assert!(ledger.mint(USER, 10_000_000_000));

    contract
        .purchase_policy(
            &mut ledger,
            USER,
            CoverageType::Token,
            1_000_000_000,
            30 * 86_400,
            ASSET,
            1000,
        )
        .unwrap();

    let claim_id = contract
        .submit_claim(
            USER,
            AssetType::Token,
            ASSET,
            500_000_000,
            String::from("Lost tokens"),
            1000 + 10 * 86_400,
        )
        .unwrap();

    let payout_amount = 450_000_000i128;
    contract
        .review_claim(
            ADMIN,
            claim_id,
            true,
            String::from("Approved after investigation"),
            payout_amount,
        )
        .unwrap();

    let claim = contract.get_claim(claim_id).unwrap();
    assert_eq!(claim.status, ClaimStatus::Approved);
    assert_eq!(claim.payout_amount, payout_amount);
}

#[test]
fn test_review_and_reject_claim() {
    let (mut contract, mut ledger) = setup();

    assert!(ledger.mint(USER, 10_000_000_000));

    contract
        .purchase_policy(
            &mut ledger,
            USER,
            CoverageType::Token,
            1_000_000_000,
            30 * 86_400,
            ASSET,
            1000,
        )
        .unwrap();

    let claim_id = contract
        .submit_claim(
            USER,
            AssetType::Token,
            ASSET,
            500_000_000,
            String::from("Lost tokens"),
            1000 + 10 * 86_400,
        )
        .unwrap();

    contract
        .review_claim(
            ADMIN,
            claim_id,
            false,
            String::from("Insufficient evidence"),
            0,
        )
        .unwrap();

    let claim = contract.get_claim(claim_id).unwrap();
    assert_eq!(claim.status, ClaimStatus::Rejected);
    assert_eq!(claim.payout_amount, 0);
}

#[test]
fn test_non_admin_cannot_review() {
    let (mut contract, mut ledger) = setup();

    assert!(ledger.mint(USER, 10_000_000_000));

    contract
        .purchase_policy(
            &mut ledger,
            USER,
            CoverageType::Token,
            1_000_000_000,
            30 * 86_400,
            ASSET,
            1000,
        )
        .unwrap();

    let claim_id = contract
        .submit_claim(
            USER,
            AssetType::Token,
            ASSET,
            500_000_000,
            String::from("Test"),
            1000 + 10 * 86_400,
        )
        .unwrap();

    let r = contract.review_claim(
        USER,
        claim_id,
        true,
        String::from("Self-approve"),
        500_000_000,
    );
    assert_eq!(r, Err(InsuranceError::Unauthorized));
}

#[test]
fn test_process_payout() {
    let (mut contract, mut ledger) = setup();

    assert!(ledger.mint(ADMIN, 10_000_000_000));
    contract
        .add_to_pool(&mut ledger, ADMIN, 5_000_000_000)
        .unwrap();

    assert!(ledger.mint(USER, 10_000_000_000));

    contract
        .purchase_policy(
            &mut ledger,
            USER,
            CoverageType::Token,
            1_000_000_000,
            30 * 86_400,
            ASSET,
            1000,
        )
        .unwrap();

    let claim_id = contract
        .submit_claim(
            USER,
            AssetType::Token,
            ASSET,
            500_000_000,
            String::from("Lost tokens"),
            1000 + 10 * 86_400,
        )
        .unwrap();

    let payout_amount = 450_000_000i128;
    contract
        .review_claim(ADMIN, claim_id, true, String::from("Approved"), payout_amount)
        .unwrap();

    let pool_before = contract.get_premium_pool();
    let balance_before = ledger.balance(USER);

    contract
        .process_payout(&mut ledger, ADMIN, claim_id, 1000 + 10 * 86_400)
        .unwrap();

    let claim = contract.get_claim(claim_id).unwrap();
    assert_eq!(claim.status, ClaimStatus::Paid);
    assert!(claim.payout_time > 0);

    let pool_after = contract.get_premium_pool();
    let balance_after = ledger.balance(USER);

    assert_eq!(pool_after, pool_before - payout_amount);
    assert_eq!(balance_after, balance_before + payout_amount);
}

#[test]
fn test_cannot_payout_unapproved_claim() {
    let (mut contract, mut ledger) = setup();

    assert!(ledger.mint(USER, 10_000_000_000));

    contract
        .purchase_policy(
            &mut ledger,
            USER,
            CoverageType::Token,
            1_000_000_000,
            30 * 86_400,
            ASSET,
            1000,
        )
        .unwrap();

    let claim_id = contract
        .submit_claim(
            USER,
            AssetType::Token,
            ASSET,
            500_000_000,
            String::from("Test"),
            1000 + 10 * 86_400,
        )
        .unwrap();

    let r = contract.process_payout(&mut ledger, ADMIN, claim_id, 1000 + 10 * 86_400);
    assert_eq!(r, Err(InsuranceError::ClaimNotApproved));
}

#[test]
fn test_cannot_payout_insufficient_pool() {
    let (mut contract, mut ledger) = setup();

    assert!(ledger.mint(USER, 10_000_000_000));

    let coverage_amount = 10_000_000_000i128;

    contract
        .purchase_policy(
            &mut ledger,
            USER,
            CoverageType::Token,
            coverage_amount,
            30 * 86_400,
            ASSET,
            1000,
        )
        .unwrap();

    let claim_amount = 8_000_000_000i128;
    let claim_id = contract
        .submit_claim(
            USER,
            AssetType::Token,
            ASSET,
            claim_amount,
            String::from("Test"),
            1000 + 10 * 86_400,
        )
        .unwrap();

    contract
        .review_claim(ADMIN, claim_id, true, String::from("Approved"), claim_amount)
        .unwrap();

    let r = contract.process_payout(&mut ledger, ADMIN, claim_id, 1000 + 10 * 86_400);
    assert_eq!(r, Err(InsuranceError::InsufficientPool));
}

#[test]
fn test_claim_cooldown_enforcement() {
    let (mut contract, mut ledger) = setup();

    assert!(ledger.mint(USER, 10_000_000_000));

    contract
        .purchase_policy(
            &mut ledger,
            USER,
            CoverageType::Token,
            1_000_000_000,
            90 * 86_400,
            ASSET,
            1000,
        )
        .unwrap();

    contract
        .submit_claim(
            USER,
            AssetType::Token,
            ASSET,
            100_000_000,
            String::from("First claim"),
            1000 + 10 * 86_400,
        )
        .unwrap();

    let r = contract.submit_claim(
        USER,
        AssetType::Token,
        ASSET,
        100_000_000,
        String::from("Second claim"),
        1000 + 15 * 86_400,
    );
    assert_eq!(r, Err(InsuranceError::ClaimCooldownActive));
}

#[test]
fn test_claim_after_cooldown() {
    let (mut contract, mut ledger) = setup();

    assert!(ledger.mint(USER, 10_000_000_000));

    contract
        .purchase_policy(
            &mut ledger,
            USER,
            CoverageType::Token,
            1_000_000_000,
            90 * 86_400,
            ASSET,
            1000,
        )
        .unwrap();

    let claim_id_1 = contract
        .submit_claim(
            USER,
            AssetType::Token,
            ASSET,
            100_000_000,
            String::from("First claim"),
            1000 + 10 * 86_400,
        )
        .unwrap();

    let claim_id_2 = contract
        .submit_claim(
            USER,
            AssetType::Token,
            ASSET,
            100_000_000,
            String::from("Second claim"),
            1000 + 18 * 86_400,
        )
        .unwrap();

    assert_eq!(claim_id_2, claim_id_1 + 1);
}

#[test]
fn test_flagged_user_cannot_claim() {
    let (mut contract, mut ledger) = setup();

    assert!(ledger.mint(USER, 10_000_000_000));

    contract
        .purchase_policy(
            &mut ledger,
            USER,
            CoverageType::Token,
            1_000_000_000,
            30 * 86_400,
            ASSET,
            1000,
        )
        .unwrap();

    contract
        .flag_user(ADMIN, USER, String::from("Suspicious pattern"))
        .unwrap();

    let r = contract.submit_claim(
        USER,
        AssetType::Token,
        ASSET,
        500_000_000,
        String::from("Test"),
        1000 + 10 * 86_400,
    );
    assert_eq!(r, Err(InsuranceError::UserFlagged));
}

#[test]
fn test_unflag_user() {
    let (mut contract, mut ledger) = setup();

    contract
        .flag_user(ADMIN, USER, String::from("Test flag"))
        .unwrap();

    let metrics = contract.get_fraud_metrics(USER);
    assert!(metrics.flagged);

    contract.unflag_user(ADMIN, USER).unwrap();

    let metrics = contract.get_fraud_metrics(USER);
    assert!(!metrics.flagged);

    assert!(ledger.mint(USER, 10_000_000_000));

    contract
        .purchase_policy(
            &mut ledger,
            USER,
            CoverageType::Token,
            1_000_000_000,
            30 * 86_400,
            ASSET,
            1000,
        )
        .unwrap();

    contract
        .submit_claim(
            USER,
            AssetType::Token,
            ASSET,
            500_000_000,
            String::from("Test"),
            1000 + 10 * 86_400,
        )
        .unwrap();
}

#[test]
fn test_add_to_pool() {
    let (mut contract, mut ledger) = setup();

    assert!(ledger.mint(ADMIN, 10_000_000_000));

    let initial_pool = contract.get_premium_pool();

    contract
        .add_to_pool(&mut ledger, ADMIN, 5_000_000_000)
        .unwrap();

    assert_eq!(contract.get_premium_pool(), initial_pool + 5_000_000_000);
}

#[test]
fn test_withdraw_from_pool() {
    let (mut contract, mut ledger) = setup();

    assert!(ledger.mint(ADMIN, 10_000_000_000));
    contract
        .add_to_pool(&mut ledger, ADMIN, 5_000_000_000)
        .unwrap();

    let pool_before = contract.get_premium_pool();
    let balance_before = ledger.balance(ADMIN);

    contract
        .withdraw_from_pool(&mut ledger, ADMIN, 2_000_000_000)
        .unwrap();

    assert_eq!(contract.get_premium_pool(), pool_before - 2_000_000_000);
    assert_eq!(ledger.balance(ADMIN), balance_before + 2_000_000_000);
}

#[test]
fn test_cannot_withdraw_more_than_pool() {
    let (mut contract, mut ledger) = setup();

    assert!(ledger.mint(ADMIN, 10_000_000_000));
    contract
        .add_to_pool(&mut ledger, ADMIN, 1_000_000_000)
        .unwrap();

    let r = contract.withdraw_from_pool(&mut ledger, ADMIN, 2_000_000_000);
    assert_eq!(r, Err(InsuranceError::InsufficientPool));
}

#[test]
fn test_update_premium_rates() {
    let (mut contract, _) = setup();

    contract
        .update_premium_rates(ADMIN, 200, 200, 150, 250)
        .unwrap();

    let config = contract.get_config().unwrap();
    assert_eq!(config.base_premium_rate, 200);
    assert_eq!(config.nft_multiplier, 200);
    assert_eq!(config.token_multiplier, 150);
    assert_eq!(config.combined_multiplier, 250);
}

#[test]
fn test_update_coverage_limits() {
    let (mut contract, _) = setup();

    contract
        .update_coverage_limits(ADMIN, 14 * 86_400, 730 * 86_400, 10_000_000_000_000)
        .unwrap();

    let config = contract.get_config().unwrap();
    assert_eq!(config.min_coverage_period, 14 * 86_400);
    assert_eq!(config.max_coverage_period, 730 * 86_400);
    assert_eq!(config.max_coverage_amount, 10_000_000_000_000);
}

#[test]
fn test_update_fraud_params() {
    let (mut contract, _) = setup();

    contract.update_fraud_params(ADMIN, 5, 14 * 86_400).unwrap();

    let config = contract.get_config().unwrap();
    assert_eq!(config.max_claims_per_period, 5);
    assert_eq!(config.claim_cooldown, 14 * 86_400);
}

#[test]
fn test_pause_contract() {
    let (mut contract, _) = setup();

    contract.set_paused(ADMIN, true).unwrap();
    assert!(contract.get_config().unwrap().paused);

    contract.set_paused(ADMIN, false).unwrap();
    assert!(!contract.get_config().unwrap().paused);
}

#[test]
fn test_cannot_purchase_when_paused() {
    let (mut contract, mut ledger) = setup();

    contract.set_paused(ADMIN, true).unwrap();

    let r = contract.purchase_policy(
        &mut ledger,
        USER,
        CoverageType::Token,
        1_000_000_000,
        30 * 86_400,
        ASSET,
        1000,
    );
    assert_eq!(r, Err(InsuranceError::ContractPaused));
}

#[test]
fn test_emergency_withdraw() {
    let (mut contract, mut ledger) = setup();

    assert!(ledger.mint(ADMIN, 10_000_000_000));
    contract
        .add_to_pool(&mut ledger, ADMIN, 5_000_000_000)
        .unwrap();

    let balance_before = ledger.balance(ADMIN);
    let withdrawn = contract.emergency_withdraw(&mut ledger, ADMIN).unwrap();

    assert_eq!(withdrawn, 5_000_000_000);
    assert_eq!(contract.get_premium_pool(), 0);
    assert_eq!(ledger.balance(ADMIN), balance_before + withdrawn);
}

#[test]
fn test_full_insurance_lifecycle() {
    let (mut contract, mut ledger) = setup();

    assert!(ledger.mint(ADMIN, 20_000_000_000));
    contract
        .add_to_pool(&mut ledger, ADMIN, 10_000_000_000)
        .unwrap();

    assert!(ledger.mint(USER, 10_000_000_000));

    contract
        .purchase_policy(
            &mut ledger,
            USER,
            CoverageType::Combined,
            2_000_000_000,
            60 * 86_400,
            ASSET,
            1000,
        )
        .unwrap();

    assert!(contract.is_policy_active(USER, 1000));

    let claim_id = contract
        .submit_claim(
            USER,
            AssetType::Token,
            ASSET,
            1_500_000_000,
            String::from("Platform hack - lost tokens"),
            1000 + 30 * 86_400,
        )
        .unwrap();

    contract
        .review_claim(
            ADMIN,
            claim_id,
            true,
            String::from("Verified loss, approved payout"),
            1_400_000_000,
        )
        .unwrap();

    let balance_before = ledger.balance(USER);
    contract
        .process_payout(&mut ledger, ADMIN, claim_id, 1000 + 30 * 86_400)
        .unwrap();

    assert_eq!(ledger.balance(USER), balance_before + 1_400_000_000);

    let claim = contract.get_claim(claim_id).unwrap();
    assert_eq!(claim.status, ClaimStatus::Paid);
    assert!(claim.payout_time > 0);

    let user_claims = contract.get_user_claims(USER);
    assert_eq!(user_claims.len(), 1);
}

#[test]
fn test_policy_renewal_and_claim() {
    let (mut contract, mut ledger) = setup();

    assert!(ledger.mint(ADMIN, 20_000_000_000));
    contract
        .add_to_pool(&mut ledger, ADMIN, 10_000_000_000)
        .unwrap();

    assert!(ledger.mint(USER, 10_000_000_000));

    contract
        .purchase_policy(
            &mut ledger,
            USER,
            CoverageType::Token,
            1_000_000_000,
            30 * 86_400,
            ASSET,
            1000,
        )
        .unwrap();

    contract
        .renew_policy(&mut ledger, USER, 30 * 86_400, 1000 + 25 * 86_400)
        .unwrap();

    let claim_id = contract
        .submit_claim(
            USER,
            AssetType::Token,
            ASSET,
            800_000_000,
            String::from("Loss during extended coverage"),
            1000 + 40 * 86_400,
        )
        .unwrap();

    assert!(claim_id > 0);
}
