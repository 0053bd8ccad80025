//! Settlement: what leaves the campaign's custody, to whom, and when.

use vstd::prelude::*;
use crate::accounts::{Refund, Withdraw};
use crate::campaign::{Campaign, CampaignView, MIN_WITHDRAW_AMOUNT};
use crate::donation::DonationView;
use crate::error::ErrorCode;
use crate::events::{RefundOutcome, RefundProcessed, Transfer};

verus! {

/// What can leave an account that holds `custody_balance` and must keep
/// `reserve`: the part above the reserve, and nothing when the balance is
/// not above it.
pub open spec fn withdrawable(custody_balance: nat, reserve: nat) -> nat {
    if custody_balance >= reserve {
        (custody_balance - reserve) as nat
    } else {
        0
    }
}

/// Why a withdrawal is turned away, if it is: the campaign is not funded,
/// nothing can leave its account, or what can leave is below
/// `MIN_WITHDRAW_AMOUNT`.
pub open spec fn withdrawal_rejection(
    campaign: CampaignView,
    custody_balance: nat,
    reserve: nat,
) -> Option<ErrorCode> {
    if !campaign.complete {
        Some(ErrorCode::CampaignNotComplete)
    } else if withdrawable(custody_balance, reserve) == 0 {
        Some(ErrorCode::NoFundsAvailable)
    } else if withdrawable(custody_balance, reserve) < MIN_WITHDRAW_AMOUNT {
        Some(ErrorCode::WithdrawAmountTooSmall)
    } else {
        None
    }
}

/// Says whether the campaign pays out at all: only a funded campaign does.
/// This is the first test of `withdraw`, for a caller who must ask the ledger
/// for the reserve and wants to know beforehand whether there is any use.
pub fn check_funded(campaign: &Campaign) -> (result: Result<(), ErrorCode>)
    ensures
        campaign.complete ==> result is Ok,
        !campaign.complete ==> result == Err::<(), ErrorCode>(ErrorCode::CampaignNotComplete),
{
    if !campaign.complete {
        return Err(ErrorCode::CampaignNotComplete);
    }
    Ok(())
}

/// Orders the transfer of all that a funded campaign holds above `reserve` to
/// its foundation, or says why not.
///
/// `reserve` is what the campaign's account must keep. A granted withdrawal
/// takes the amount off `custody_balance`, which is then the reserve, so that
/// the next withdrawal finds nothing; no flag records that one was made.
pub fn withdraw(ctx: &mut Withdraw, reserve: u64) -> (result: Result<Transfer, ErrorCode>)
    ensures
        match result {
            Ok(transfer) => {
                &&& withdrawal_rejection(
                    old(ctx).campaign@,
                    old(ctx).custody_balance as nat,
                    reserve as nat,
                ) is None
                &&& transfer == (Transfer {
                    from: old(ctx).campaign_key,
                    to: old(ctx).campaign.foundation,
                    lamports: (old(ctx).custody_balance - reserve) as u64,
                })
                &&& final(ctx).custody_balance == reserve
                &&& final(ctx).campaign == old(ctx).campaign
                &&& final(ctx).campaign_key == old(ctx).campaign_key
            },
            Err(error) => {
                &&& withdrawal_rejection(
                    old(ctx).campaign@,
                    old(ctx).custody_balance as nat,
                    reserve as nat,
                ) == Some(error)
                &&& *final(ctx) == *old(ctx)
            },
        },
{
    match check_funded(&ctx.campaign) {
        Ok(()) => {},
        Err(error) => {
            return Err(error);
        },
    }
    let available: u64 = if ctx.custody_balance >= reserve {
        ctx.custody_balance - reserve
    } else {
        0
    };
    if available == 0 {
        return Err(ErrorCode::NoFundsAvailable);
    }
    if available < MIN_WITHDRAW_AMOUNT {
        return Err(ErrorCode::WithdrawAmountTooSmall);
    }
    ctx.custody_balance = reserve;
    Ok(Transfer { from: ctx.campaign_key, to: ctx.campaign.foundation, lamports: available })
}

/// Why a refund is turned away, if it is: the campaign has not failed, the
/// donor's record holds nothing, or the campaign's account holds less than
/// the record does; the last two are both told as `NoFundsAvailable`.
pub open spec fn refund_rejection(
    campaign: CampaignView,
    donation: DonationView,
    custody_balance: nat,
) -> Option<ErrorCode> {
    if !campaign.failed {
        Some(ErrorCode::CampaignNotFailed)
    } else if donation.amount == 0 || custody_balance < donation.amount {
        Some(ErrorCode::NoFundsAvailable)
    } else {
        None
    }
}

/// Gives a donor of a failed campaign the donation back, or says why not.
///
/// The record is emptied here, before the transfer that the outcome orders is
/// carried out: a second refund on the same record finds nothing. A granted
/// refund takes the amount off `custody_balance`. No refund is ordered that
/// the campaign's account cannot cover; `history` shows that the account of a
/// campaign that was run by this library always can.
pub fn refund(ctx: &mut Refund) -> (result: Result<RefundOutcome, ErrorCode>)
    ensures
        match result {
            Ok(outcome) => {
                &&& refund_rejection(
                    old(ctx).campaign@,
                    old(ctx).donation@,
                    old(ctx).custody_balance as nat,
                ) is None
                &&& final(ctx).donation@ == (DonationView { amount: 0, ..old(ctx).donation@ })
                &&& final(ctx).campaign == old(ctx).campaign
                &&& final(ctx).campaign_key == old(ctx).campaign_key
                &&& final(ctx).custody_balance == ({
                    let before = old(ctx);
                    before.custody_balance - before.donation.amount
                })
                &&& outcome.transfer == (Transfer {
                    from: old(ctx).campaign_key,
                    to: old(ctx).donation.donor,
                    lamports: old(ctx).donation.amount,
                })
                &&& outcome.processed == (RefundProcessed {
                    campaign: old(ctx).campaign_key,
                    donor: old(ctx).donation.donor,
                    amount: old(ctx).donation.amount,
                })
            },
            Err(error) => {
                &&& refund_rejection(
                    old(ctx).campaign@,
                    old(ctx).donation@,
                    old(ctx).custody_balance as nat,
                ) == Some(error)
                &&& *final(ctx) == *old(ctx)
            },
        },
        old(ctx).donation@.wf_for(old(ctx).campaign@) ==> final(ctx).donation@.wf_for(
            final(ctx).campaign@,
        ),
{
    if !ctx.campaign.failed {
        return Err(ErrorCode::CampaignNotFailed);
    }
    let refund_amount: u64 = ctx.donation.amount;
    if refund_amount == 0 {
        return Err(ErrorCode::NoFundsAvailable);
    }
    if ctx.custody_balance < refund_amount {
        return Err(ErrorCode::NoFundsAvailable);
    }
    ctx.donation.amount = 0;
    ctx.custody_balance = ctx.custody_balance - refund_amount;
    let transfer = Transfer {
        from: ctx.campaign_key,
        to: ctx.donation.donor,
        lamports: refund_amount,
    };
    let processed = RefundProcessed {
        campaign: ctx.campaign_key,
        donor: ctx.donation.donor,
        amount: refund_amount,
    };
    Ok(RefundOutcome { transfer, processed })
}

} // verus!
