use solclassis::{
    check_funded, refund, withdraw, Campaign, Donation, ErrorCode, Identity, Refund,
    RefundProcessed, Transfer, Withdraw, MIN_WITHDRAW_AMOUNT,
};

fn key_s(n: u8) -> Identity {
    Identity { bytes: [n; 32] }
}

fn campaign_s(complete: bool, failed: bool) -> Campaign {
    Campaign {
        creator: key_s(2),
        foundation: key_s(3),
        title: "Library roof".to_string(),
        description: "A new roof".to_string(),
        goal: 500_000,
        donation_amount: 100_000,
        raised: if complete { 500_000 } else { 300_000 },
        end_date: 100,
        complete,
        failed,
    }
}

fn withdrawal_s(complete: bool, failed: bool, custody_balance: u64) -> Withdraw {
    Withdraw { campaign_key: key_s(1), campaign: campaign_s(complete, failed), custody_balance }
}

fn refund_s(complete: bool, failed: bool, held: u64) -> Refund {
    Refund {
        campaign_key: key_s(1),
        campaign: campaign_s(complete, failed),
        donation: Donation { donor: key_s(7), amount: held },
        custody_balance: 2_300_000,
    }
}

#[test]
fn withdraw_is_rejected_unless_the_campaign_is_funded() {
    let mut active = withdrawal_s(false, false, 10_000_000);
    assert_eq!(withdraw(&mut active, 1_000_000).unwrap_err(), ErrorCode::CampaignNotComplete);
    let mut failed = withdrawal_s(false, true, 10_000_000);
    assert_eq!(withdraw(&mut failed, 1_000_000).unwrap_err(), ErrorCode::CampaignNotComplete);
}

#[test]
fn withdraw_moves_all_above_the_reserve_to_the_foundation() {
    let mut ctx = withdrawal_s(true, false, 2_500_000);
    let campaign_before = ctx.campaign.clone();
    assert_eq!(
        withdraw(&mut ctx, 2_000_000).unwrap(),
        Transfer { from: key_s(1), to: key_s(3), lamports: 500_000 }
    );
    assert_eq!(ctx.custody_balance, 2_000_000);
    assert_eq!(ctx.campaign, campaign_before);
    let mut ctx = withdrawal_s(true, false, 2_500_000);
    assert_eq!(
        withdraw(&mut ctx, 0).unwrap(),
        Transfer { from: key_s(1), to: key_s(3), lamports: 2_500_000 }
    );
    assert_eq!(ctx.custody_balance, 0);
}

#[test]
fn withdraw_that_is_rejected_changes_nothing() {
    for (complete, balance, reserve) in
        [(false, 9_000_000, 0), (true, 2_000_000, 2_000_000), (true, 2_050_000, 2_000_000)]
    {
        let mut ctx = withdrawal_s(complete, false, balance);
        let before = ctx.clone();
        assert!(withdraw(&mut ctx, reserve).is_err());
        assert_eq!(ctx, before);
    }
}

#[test]
fn check_funded_passes_funded_campaigns_only() {
    assert_eq!(check_funded(&campaign_s(true, false)), Ok(()));
    assert_eq!(check_funded(&campaign_s(false, false)), Err(ErrorCode::CampaignNotComplete));
    assert_eq!(check_funded(&campaign_s(false, true)), Err(ErrorCode::CampaignNotComplete));
}

#[test]
fn withdraw_is_rejected_when_nothing_is_above_the_reserve() {
    let mut ctx = withdrawal_s(true, false, 2_000_000);
    assert_eq!(withdraw(&mut ctx, 2_000_000).unwrap_err(), ErrorCode::NoFundsAvailable);
    assert_eq!(withdraw(&mut ctx, 2_000_001).unwrap_err(), ErrorCode::NoFundsAvailable);
    assert_eq!(withdraw(&mut ctx, u64::MAX).unwrap_err(), ErrorCode::NoFundsAvailable);
    let mut empty = withdrawal_s(true, false, 0);
    assert_eq!(withdraw(&mut empty, 0).unwrap_err(), ErrorCode::NoFundsAvailable);
}

#[test]
fn withdraw_is_rejected_below_the_smallest_withdrawal() {
    assert_eq!(MIN_WITHDRAW_AMOUNT, 100_000);
    let mut ctx = withdrawal_s(true, false, 2_099_999);
    assert_eq!(withdraw(&mut ctx, 2_000_000).unwrap_err(), ErrorCode::WithdrawAmountTooSmall);
    assert_eq!(withdraw(&mut ctx, 2_099_998).unwrap_err(), ErrorCode::WithdrawAmountTooSmall);
    let mut ctx = withdrawal_s(true, false, 2_100_000);
    assert_eq!(
        withdraw(&mut ctx, 2_000_000).unwrap(),
        Transfer { from: key_s(1), to: key_s(3), lamports: 100_000 }
    );
}

#[test]
fn withdraw_checks_the_status_before_the_balance() {
    let mut ctx = withdrawal_s(false, false, 0);
    assert_eq!(withdraw(&mut ctx, 0).unwrap_err(), ErrorCode::CampaignNotComplete);
}

#[test]
fn withdraw_finds_nothing_the_second_time() {
    let reserve = 2_000_000;
    let mut ctx = withdrawal_s(true, false, 2_500_000);
    let transfer = withdraw(&mut ctx, reserve).unwrap();
    assert_eq!(transfer.lamports, 500_000);
    assert_eq!(ctx.custody_balance, reserve);
    assert_eq!(withdraw(&mut ctx, reserve).unwrap_err(), ErrorCode::NoFundsAvailable);
    assert_eq!(ctx.custody_balance, reserve);
}

#[test]
fn withdraw_accepts_the_largest_balance() {
    let mut ctx = withdrawal_s(true, false, u64::MAX);
    assert_eq!(withdraw(&mut ctx, 0).unwrap().lamports, u64::MAX);
    let mut ctx = withdrawal_s(true, false, u64::MAX);
    assert_eq!(withdraw(&mut ctx, 1).unwrap().lamports, u64::MAX - 1);
    assert_eq!(ctx.custody_balance, 1);
}

#[test]
fn refund_is_rejected_unless_the_campaign_has_failed() {
    let mut active = refund_s(false, false, 100_000);
    assert_eq!(refund(&mut active).unwrap_err(), ErrorCode::CampaignNotFailed);
    assert_eq!(active.donation.amount, 100_000);
    let mut funded = refund_s(true, false, 100_000);
    assert_eq!(refund(&mut funded).unwrap_err(), ErrorCode::CampaignNotFailed);
    assert_eq!(funded.donation.amount, 100_000);
}

#[test]
fn refund_returns_the_donation_and_empties_the_record() {
    let mut ctx = refund_s(false, true, 100_000);
    let campaign_before = ctx.campaign.clone();
    let outcome = refund(&mut ctx).unwrap();
    assert_eq!(
        outcome.transfer,
        Transfer { from: key_s(1), to: key_s(7), lamports: 100_000 }
    );
    assert_eq!(
        outcome.processed,
        RefundProcessed { campaign: key_s(1), donor: key_s(7), amount: 100_000 }
    );
    assert_eq!(ctx.donation, Donation { donor: key_s(7), amount: 0 });
    assert_eq!(ctx.campaign, campaign_before);
    assert_eq!(ctx.custody_balance, 2_200_000);
}

#[test]
fn refund_is_rejected_when_the_account_cannot_cover_it() {
    let mut ctx = refund_s(false, true, 100_000);
    ctx.custody_balance = 99_999;
    let before = ctx.clone();
    assert_eq!(refund(&mut ctx).unwrap_err(), ErrorCode::NoFundsAvailable);
    assert_eq!(ctx, before);
    ctx.custody_balance = 100_000;
    assert_eq!(refund(&mut ctx).unwrap().transfer.lamports, 100_000);
    assert_eq!(ctx.custody_balance, 0);
    assert_eq!(ctx.donation.amount, 0);
}

#[test]
fn refund_is_granted_only_once() {
    let mut ctx = refund_s(false, true, 100_000);
    refund(&mut ctx).unwrap();
    let after_first = ctx.clone();
    assert_eq!(refund(&mut ctx).unwrap_err(), ErrorCode::NoFundsAvailable);
    assert_eq!(refund(&mut ctx).unwrap_err(), ErrorCode::NoFundsAvailable);
    assert_eq!(ctx, after_first);
}

#[test]
fn refund_is_rejected_for_a_record_that_never_held_a_donation() {
    let mut ctx = refund_s(false, true, 0);
    assert_eq!(refund(&mut ctx).unwrap_err(), ErrorCode::NoFundsAvailable);
}

#[test]
fn refund_checks_the_status_before_the_record() {
    let mut ctx = refund_s(false, false, 0);
    assert_eq!(refund(&mut ctx).unwrap_err(), ErrorCode::CampaignNotFailed);
}
