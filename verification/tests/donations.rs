use solclassis::{
    donate, Campaign, CampaignCompleted, CampaignStatus, Donate, Donation, DonationReceived,
    ErrorCode, Identity, Transfer,
};

fn key_d(n: u8) -> Identity {
    Identity { bytes: [n; 32] }
}

fn campaign_d(goal: u64, unit: u64, raised: u64, end_date: i64) -> Campaign {
    Campaign {
        creator: key_d(2),
        foundation: key_d(3),
        title: "Library roof".to_string(),
        description: "A new roof".to_string(),
        goal,
        donation_amount: unit,
        raised,
        end_date,
        complete: false,
        failed: false,
    }
}

fn accounts_d(campaign: Campaign, donor: u8, held: u64) -> Donate {
    Donate {
        campaign_key: key_d(1),
        campaign,
        donation: Donation { donor: key_d(donor), amount: held },
    }
}

#[test]
fn donate_adds_the_amount_and_fills_the_record() {
    let mut ctx = accounts_d(campaign_d(1_000_000, 100_000, 200_000, 50), 7, 0);
    let outcome = donate(&mut ctx, 100_000, 49).unwrap();
    assert_eq!(ctx.campaign.raised, 300_000);
    assert_eq!(ctx.donation, Donation { donor: key_d(7), amount: 100_000 });
    assert_eq!(ctx.campaign.status(), CampaignStatus::Active);
    assert_eq!(
        outcome.transfer,
        Transfer { from: key_d(7), to: key_d(1), lamports: 100_000 }
    );
    assert_eq!(
        outcome.received,
        DonationReceived { campaign: key_d(1), donor: key_d(7), amount: 100_000 }
    );
    assert_eq!(outcome.completed, None);
}

#[test]
fn donate_changes_nothing_but_the_total_the_flag_and_the_record() {
    let before = campaign_d(200_000, 100_000, 100_000, 50);
    let mut ctx = accounts_d(before.clone(), 7, 0);
    donate(&mut ctx, 100_000, 0).unwrap();
    let expected = Campaign { raised: 200_000, complete: true, ..before };
    assert_eq!(ctx.campaign, expected);
    assert_eq!(ctx.campaign_key, key_d(1));
}

#[test]
fn donate_is_rejected_from_the_end_date_on() {
    let mut ctx = accounts_d(campaign_d(1_000_000, 100_000, 0, 50), 7, 0);
    assert_eq!(donate(&mut ctx, 100_000, 50).unwrap_err(), ErrorCode::CampaignEnded);
    assert_eq!(donate(&mut ctx, 100_000, 51).unwrap_err(), ErrorCode::CampaignEnded);
    assert_eq!(donate(&mut ctx, 100_000, i64::MAX).unwrap_err(), ErrorCode::CampaignEnded);
    assert_eq!(ctx.campaign.raised, 0);
    assert_eq!(ctx.donation.amount, 0);
}

#[test]
fn donate_rejects_any_amount_but_the_donation_amount() {
    let mut ctx = accounts_d(campaign_d(1_000_000, 100_000, 0, 50), 7, 0);
    assert_eq!(donate(&mut ctx, 99_999, 10).unwrap_err(), ErrorCode::InvalidDonationAmount);
    assert_eq!(donate(&mut ctx, 100_001, 10).unwrap_err(), ErrorCode::InvalidDonationAmount);
    assert_eq!(donate(&mut ctx, 0, 10).unwrap_err(), ErrorCode::InvalidDonationAmount);
    assert_eq!(donate(&mut ctx, 200_000, 10).unwrap_err(), ErrorCode::InvalidDonationAmount);
    assert_eq!(ctx.campaign.raised, 0);
}

#[test]
fn donate_rejects_a_second_donation_on_the_same_record() {
    let mut ctx = accounts_d(campaign_d(1_000_000, 100_000, 0, 50), 7, 0);
    donate(&mut ctx, 100_000, 10).unwrap();
    let after_first = ctx.clone();
    assert_eq!(donate(&mut ctx, 100_000, 11).unwrap_err(), ErrorCode::AlreadyDonated);
    assert_eq!(ctx.campaign.raised, 100_000);
    assert_eq!(ctx, after_first);
}

#[test]
fn donate_rejects_a_total_that_does_not_fit() {
    let campaign = campaign_d(u64::MAX, 100_000, u64::MAX - 99_999, 50);
    let mut ctx = accounts_d(campaign, 7, 0);
    let before = ctx.clone();
    assert_eq!(donate(&mut ctx, 100_000, 10).unwrap_err(), ErrorCode::OverflowError);
    assert_eq!(ctx, before);
    ctx.campaign.raised = u64::MAX - 100_000;
    assert!(donate(&mut ctx, 100_000, 10).is_ok());
    assert_eq!(ctx.campaign.raised, u64::MAX);
    assert!(ctx.campaign.complete);
}

#[test]
fn donate_checks_end_date_amount_record_status_and_room_in_this_order() {
    let mut campaign = campaign_d(1_000_000, 100_000, u64::MAX, 50);
    campaign.complete = true;
    let mut ctx = accounts_d(campaign, 7, 100_000);
    assert_eq!(donate(&mut ctx, 5, 50).unwrap_err(), ErrorCode::CampaignEnded);
    assert_eq!(donate(&mut ctx, 5, 49).unwrap_err(), ErrorCode::InvalidDonationAmount);
    assert_eq!(donate(&mut ctx, 100_000, 49).unwrap_err(), ErrorCode::AlreadyDonated);
    ctx.donation.amount = 0;
    assert_eq!(donate(&mut ctx, 100_000, 49).unwrap_err(), ErrorCode::CampaignAlreadyComplete);
    ctx.campaign.complete = false;
    assert_eq!(donate(&mut ctx, 100_000, 49).unwrap_err(), ErrorCode::OverflowError);
}

#[test]
fn donate_funds_the_campaign_in_the_step_that_reaches_the_goal() {
    let mut ctx = accounts_d(campaign_d(300_000, 100_000, 100_000, 50), 7, 0);
    let outcome = donate(&mut ctx, 100_000, 10).unwrap();
    assert_eq!(outcome.completed, None);
    assert_eq!(ctx.campaign.status(), CampaignStatus::Active);

    ctx.donation = Donation { donor: key_d(8), amount: 0 };
    let outcome = donate(&mut ctx, 100_000, 10).unwrap();
    assert_eq!(ctx.campaign.raised, 300_000);
    assert!(ctx.campaign.complete);
    assert!(!ctx.campaign.failed);
    assert_eq!(ctx.campaign.status(), CampaignStatus::Funded);
    assert_eq!(
        outcome.completed,
        Some(CampaignCompleted { campaign: key_d(1), raised: 300_000 })
    );
}

#[test]
fn donate_is_rejected_by_a_funded_campaign_before_its_end_date() {
    let mut campaign = campaign_d(300_000, 100_000, 300_000, 50);
    campaign.complete = true;
    let mut ctx = accounts_d(campaign, 9, 0);
    let before = ctx.clone();
    assert_eq!(donate(&mut ctx, 100_000, 10).unwrap_err(), ErrorCode::CampaignAlreadyComplete);
    assert_eq!(ctx, before);
    assert_eq!(ctx.campaign.raised, 300_000);
    assert_eq!(ctx.donation.amount, 0);
}

#[test]
fn donate_is_rejected_by_a_failed_campaign_at_any_time() {
    let mut campaign = campaign_d(300_000, 100_000, 100_000, 50);
    campaign.failed = true;
    let mut ctx = accounts_d(campaign, 9, 0);
    let before = ctx.clone();
    assert_eq!(donate(&mut ctx, 100_000, 10).unwrap_err(), ErrorCode::CampaignAlreadyComplete);
    assert_eq!(donate(&mut ctx, 100_000, 50).unwrap_err(), ErrorCode::CampaignEnded);
    assert_eq!(ctx, before);
    assert!(!ctx.campaign.complete);
}

#[test]
fn the_donor_who_funds_a_campaign_is_told_already_donated_on_a_second_try() {
    let mut ctx = accounts_d(campaign_d(100_000, 100_000, 0, 50), 7, 0);
    let outcome = donate(&mut ctx, 100_000, 10).unwrap();
    assert!(outcome.completed.is_some());
    assert_eq!(ctx.campaign.status(), CampaignStatus::Funded);
    assert_eq!(donate(&mut ctx, 100_000, 11).unwrap_err(), ErrorCode::AlreadyDonated);
    assert_eq!(ctx.campaign.raised, 100_000);
}

#[test]
fn the_funded_event_comes_once() {
    let mut campaign = campaign_d(200_000, 100_000, 0, 50);
    let mut events = 0;
    for donor in 0..5u8 {
        let mut ctx = accounts_d(campaign, donor, 0);
        if let Ok(outcome) = donate(&mut ctx, 100_000, 10) {
            if outcome.completed.is_some() {
                events += 1;
            }
        }
        campaign = ctx.campaign;
        assert!(campaign.raised <= campaign.goal);
    }
    assert_eq!(events, 1);
    assert_eq!(campaign.raised, 200_000);
}

#[test]
fn donate_accepts_times_before_a_negative_end_date() {
    let mut ctx = accounts_d(campaign_d(1_000_000, 100_000, 0, -5), 7, 0);
    assert_eq!(donate(&mut ctx, 100_000, -5).unwrap_err(), ErrorCode::CampaignEnded);
    assert!(donate(&mut ctx, 100_000, -6).is_ok());
}

#[test]
fn raised_is_the_sum_of_the_accepted_donations() {
    let mut campaign = campaign_d(10_000_000, 100_000, 0, 50);
    let mut accepted: u64 = 0;
    for donor in 0..40u8 {
        // Every third donor comes too late, every fifth offers a wrong amount.
        let now = if donor % 3 == 0 { 50 } else { 49 };
        let amount = if donor % 5 == 0 { 100_001 } else { 100_000 };
        let mut ctx = accounts_d(campaign, donor, 0);
        if donate(&mut ctx, amount, now).is_ok() {
            accepted += 1;
        }
        campaign = ctx.campaign;
        assert_eq!(campaign.raised, accepted * 100_000);
    }
    assert_eq!(accepted, 21);
    assert_eq!(campaign.raised, 2_100_000);
}
