//! The campaign's life: creation, donations, and resolution at the end date.

use vstd::prelude::*;
use crate::accounts::{CreateCampaign, CreateDonationPda, Donate, EndCampaign};
use crate::campaign::{byte_len, Campaign, CampaignView, MAX_DESCRIPTION_LENGTH};
use crate::donation::{Donation, DonationView};
use crate::error::ErrorCode;
use crate::events::{
    CampaignCompleted, CampaignCreated, CampaignFailed, DonationOutcome, DonationReceived,
    Resolution, Transfer,
};
use crate::laws::donation_keeps_well_formed;

verus! {

/// Why a campaign with these terms is not created, if it is not. The
/// description is checked first, then the amounts: the donation amount and the
/// goal must be positive, and the donation amount must divide the goal.
pub open spec fn creation_rejection(
    description: Seq<char>,
    goal: nat,
    donation_amount: nat,
) -> Option<ErrorCode> {
    if byte_len(description) > MAX_DESCRIPTION_LENGTH {
        Some(ErrorCode::DescriptionTooLong)
    } else if donation_amount == 0 || goal == 0 || goal % donation_amount != 0 {
        Some(ErrorCode::InvalidGoalAmount)
    } else {
        None
    }
}

/// The campaign that `create_campaign` makes of its arguments: nothing raised
/// yet, neither funded nor failed.
pub open spec fn created(
    ctx: CreateCampaign,
    title: Seq<char>,
    description: Seq<char>,
    goal: nat,
    donation_amount: nat,
    end_date: int,
) -> CampaignView {
    CampaignView {
        creator: ctx.creator,
        foundation: ctx.foundation,
        title,
        description,
        goal,
        donation_amount,
        raised: 0,
        end_date,
        complete: false,
        failed: false,
    }
}

/// Creates a campaign, or says why not.
///
/// The description may take at most `MAX_DESCRIPTION_LENGTH` bytes. The goal
/// and the donation amount must be positive, and the donation amount must
/// divide the goal, so that a whole number of donations reaches the goal
/// exactly. The new campaign is active, with nothing raised, and comes with
/// the event that announces it.
pub fn create_campaign(
    ctx: &CreateCampaign,
    title: String,
    description: String,
    goal: u64,
    donation_amount: u64,
    end_date: i64,
) -> (result: Result<(Campaign, CampaignCreated), ErrorCode>)
    ensures
        match result {
            Ok((campaign, event)) => {
                &&& creation_rejection(description@, goal as nat, donation_amount as nat) is None
                &&& campaign@ == created(
                    *ctx,
                    title@,
                    description@,
                    goal as nat,
                    donation_amount as nat,
                    end_date as int,
                )
                &&& campaign@.wf()
                &&& event.campaign == ctx.campaign
                &&& event.title@ == title@
                &&& event.goal == goal
            },
            Err(error) => creation_rejection(description@, goal as nat, donation_amount as nat)
                == Some(error),
        },
{
    if description.as_str().as_bytes().len() > MAX_DESCRIPTION_LENGTH {
        return Err(ErrorCode::DescriptionTooLong);
    }
    if donation_amount == 0 || goal == 0 {
        return Err(ErrorCode::InvalidGoalAmount);
    }
    if goal % donation_amount != 0 {
        return Err(ErrorCode::InvalidGoalAmount);
    }
    let event = CampaignCreated { campaign: ctx.campaign, title: title.clone(), goal };
    let campaign = Campaign {
        creator: ctx.creator,
        foundation: ctx.foundation,
        title,
        description,
        goal,
        donation_amount,
        raised: 0,
        end_date,
        complete: false,
        failed: false,
    };
    Ok((campaign, event))
}

/// Opens the record of one donor for one campaign: it names the donor and
/// holds nothing.
pub fn create_donation_pda(ctx: &CreateDonationPda) -> (donation: Donation)
    ensures
        donation == (Donation { donor: ctx.donor, amount: 0 }),
{
    Donation { donor: ctx.donor, amount: 0 }
}

/// Why a donation of `amount` at time `now` is turned away, if it is. The
/// checks are made in this order: the end date, the amount, the donor's
/// record, the status, the room left in the raised total.
///
/// Only an active campaign takes donations. One that is funded or failed
/// turns them away as `CampaignAlreadyComplete`, also before its end date; a
/// donor whose record holds a donation is told `AlreadyDonated` first.
pub open spec fn donation_rejection(
    campaign: CampaignView,
    donation: DonationView,
    amount: nat,
    now: int,
) -> Option<ErrorCode> {
    if now >= campaign.end_date {
        Some(ErrorCode::CampaignEnded)
    } else if amount != campaign.donation_amount {
        Some(ErrorCode::InvalidDonationAmount)
    } else if donation.amount > 0 {
        Some(ErrorCode::AlreadyDonated)
    } else if campaign.complete || campaign.failed {
        Some(ErrorCode::CampaignAlreadyComplete)
    } else if campaign.raised + amount > u64::MAX {
        Some(ErrorCode::OverflowError)
    } else {
        None
    }
}

/// The campaign once a donation of `amount` is accepted: the amount is added
/// to the raised total, and the campaign is funded if the total has reached
/// the goal.
pub open spec fn after_donation(campaign: CampaignView, amount: nat) -> CampaignView {
    CampaignView {
        raised: campaign.raised + amount,
        complete: campaign.raised + amount >= campaign.goal,
        ..campaign
    }
}

/// Accepts a donation of `amount` at time `now`, or says why not.
///
/// Only an active campaign accepts a donation. An accepted donation is added
/// to the raised total and written into the donor's record, both or neither.
/// The campaign becomes funded in the same step in which the total reaches
/// the goal, and from then on takes no more. The outcome orders the transfer
/// of `amount` from the donor to the campaign and carries the events.
pub fn donate(ctx: &mut Donate, amount: u64, now: i64) -> (result: Result<
    DonationOutcome,
    ErrorCode,
>)
    ensures
        match result {
            Ok(outcome) => {
                &&& donation_rejection(
                    old(ctx).campaign@,
                    old(ctx).donation@,
                    amount as nat,
                    now as int,
                ) is None
                &&& final(ctx).campaign@ == after_donation(old(ctx).campaign@, amount as nat)
                &&& final(ctx).donation@ == (DonationView {
                    amount: amount as nat,
                    ..old(ctx).donation@
                })
                &&& final(ctx).campaign_key == old(ctx).campaign_key
                &&& outcome.transfer == (Transfer {
                    from: old(ctx).donation.donor,
                    to: old(ctx).campaign_key,
                    lamports: amount,
                })
                &&& outcome.received == (DonationReceived {
                    campaign: old(ctx).campaign_key,
                    donor: old(ctx).donation.donor,
                    amount,
                })
                &&& outcome.completed == (if final(ctx).campaign.raised >= final(ctx).campaign.goal {
                    Some(
                        CampaignCompleted {
                            campaign: old(ctx).campaign_key,
                            raised: final(ctx).campaign.raised,
                        },
                    )
                } else {
                    None
                })
            },
            Err(error) => {
                &&& donation_rejection(
                    old(ctx).campaign@,
                    old(ctx).donation@,
                    amount as nat,
                    now as int,
                ) == Some(error)
                &&& *final(ctx) == *old(ctx)
            },
        },
        old(ctx).campaign@.wf() ==> final(ctx).campaign@.wf(),
        old(ctx).campaign@.settled_once() ==> final(ctx).campaign@.settled_once(),
        old(ctx).campaign.complete ==> final(ctx).campaign.complete,
        old(ctx).campaign.failed ==> final(ctx).campaign.failed,
        old(ctx).donation@.wf_for(old(ctx).campaign@) ==> final(ctx).donation@.wf_for(
            final(ctx).campaign@,
        ),
{
    if now >= ctx.campaign.end_date {
        return Err(ErrorCode::CampaignEnded);
    }
    if amount != ctx.campaign.donation_amount {
        return Err(ErrorCode::InvalidDonationAmount);
    }
    if ctx.donation.amount > 0 {
        return Err(ErrorCode::AlreadyDonated);
    }
    if ctx.campaign.complete || ctx.campaign.failed {
        return Err(ErrorCode::CampaignAlreadyComplete);
    }
    let raised: u64 = match ctx.campaign.raised.checked_add(amount) {
        Some(sum) => sum,
        None => {
            return Err(ErrorCode::OverflowError);
        },
    };
    proof {
        if ctx.campaign@.wf() {
            donation_keeps_well_formed(ctx.campaign@, ctx.donation@, amount as nat, now as int);
        }
    }
    ctx.campaign.raised = raised;
    ctx.donation.amount = amount;
    let transfer = Transfer { from: ctx.donation.donor, to: ctx.campaign_key, lamports: amount };
    let received = DonationReceived {
        campaign: ctx.campaign_key,
        donor: ctx.donation.donor,
        amount,
    };
    let completed = if raised >= ctx.campaign.goal {
        ctx.campaign.complete = true;
        Some(CampaignCompleted { campaign: ctx.campaign_key, raised })
    } else {
        None
    };
    Ok(DonationOutcome { transfer, received, completed })
}

/// Why a campaign is not resolved at time `now`, if it is not: the end date
/// has not come, or the campaign is funded or failed already.
pub open spec fn resolution_rejection(campaign: CampaignView, now: int) -> Option<ErrorCode> {
    if now < campaign.end_date {
        Some(ErrorCode::CampaignNotEnded)
    } else if campaign.complete || campaign.failed {
        Some(ErrorCode::CampaignAlreadyComplete)
    } else {
        None
    }
}

/// The campaign once it is resolved: funded if the raised total has reached
/// the goal, failed if not.
pub open spec fn after_resolution(campaign: CampaignView) -> CampaignView {
    if campaign.raised < campaign.goal {
        CampaignView { failed: true, ..campaign }
    } else {
        CampaignView { complete: true, ..campaign }
    }
}

/// Resolves an active campaign whose end date has come, or says why not.
///
/// The campaign becomes funded if the raised total has reached the goal, and
/// failed if not; nothing else leads to failure. The result carries the event
/// to emit.
pub fn end_campaign(ctx: &mut EndCampaign, now: i64) -> (result: Result<Resolution, ErrorCode>)
    ensures
        match result {
            Ok(resolution) => {
                &&& resolution_rejection(old(ctx).campaign@, now as int) is None
                &&& final(ctx).campaign@ == after_resolution(old(ctx).campaign@)
                &&& final(ctx).campaign_key == old(ctx).campaign_key
                &&& resolution == (if old(ctx).campaign.raised < old(ctx).campaign.goal {
                    Resolution::Failed(
                        CampaignFailed {
                            campaign: old(ctx).campaign_key,
                            raised: old(ctx).campaign.raised,
                        },
                    )
                } else {
                    Resolution::Funded(
                        CampaignCompleted {
                            campaign: old(ctx).campaign_key,
                            raised: old(ctx).campaign.raised,
                        },
                    )
                })
            },
            Err(error) => {
                &&& resolution_rejection(old(ctx).campaign@, now as int) == Some(error)
                &&& *final(ctx) == *old(ctx)
            },
        },
        old(ctx).campaign@.wf() ==> final(ctx).campaign@.wf(),
        old(ctx).campaign@.settled_once() ==> final(ctx).campaign@.settled_once(),
        old(ctx).campaign.complete ==> final(ctx).campaign.complete,
        old(ctx).campaign.failed ==> final(ctx).campaign.failed,
{
    if now < ctx.campaign.end_date {
        return Err(ErrorCode::CampaignNotEnded);
    }
    if ctx.campaign.complete || ctx.campaign.failed {
        return Err(ErrorCode::CampaignAlreadyComplete);
    }
    if ctx.campaign.raised < ctx.campaign.goal {
        ctx.campaign.failed = true;
        Ok(
            Resolution::Failed(
                CampaignFailed { campaign: ctx.campaign_key, raised: ctx.campaign.raised },
            ),
        )
    } else {
        ctx.campaign.complete = true;
        Ok(
            Resolution::Funded(
                CampaignCompleted { campaign: ctx.campaign_key, raised: ctx.campaign.raised },
            ),
        )
    }
}

} // verus!
