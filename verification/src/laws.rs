//! What holds of the operations taken together, stated over the functions
//! that their contracts use.

use vstd::prelude::*;
use vstd::arithmetic::div_mod::{lemma_fundamental_div_mod, lemma_mod_add_multiples_vanish};
use crate::accounts::CreateCampaign;
use crate::campaign::{
    byte_len, CampaignStatus, CampaignView, MAX_DESCRIPTION_LENGTH, MIN_WITHDRAW_AMOUNT,
};
use crate::custody::{refund_rejection, withdrawable, withdrawal_rejection};
use crate::donation::DonationView;
use crate::error::ErrorCode;
use crate::lifecycle::{
    after_donation, after_resolution, created, creation_rejection, donation_rejection,
    resolution_rejection,
};

verus! {

/// The multiple of `unit` that follows `raised` is no further than any
/// multiple of `unit` above `raised`.
proof fn lemma_next_multiple(raised: nat, goal: nat, unit: nat)
    requires
        unit > 0,
        raised % unit == 0,
        goal % unit == 0,
        raised < goal,
    ensures
        raised + unit <= goal,
{
    let r: int = raised as int;
    let g: int = goal as int;
    let u: int = unit as int;
    lemma_fundamental_div_mod(r, u);
    lemma_fundamental_div_mod(g, u);
    assert(r / u < g / u) by (nonlinear_arith)
        requires
            r == u * (r / u),
            g == u * (g / u),
            u > 0,
            r < g,
    ;
    assert(u * (r / u) + u <= u * (g / u)) by (nonlinear_arith)
        requires
            r / u + 1 <= g / u,
            u > 0,
    ;
}

/// A campaign is created only with a positive goal and a positive donation
/// amount that divides the goal, and the campaign so created is well formed.
/// Terms whose description is within its bound and whose goal or donation
/// amount is zero, or whose donation amount does not divide the goal, are
/// turned away as `InvalidGoalAmount`.
pub proof fn creation_demands_divisible_goal(
    ctx: CreateCampaign,
    title: Seq<char>,
    description: Seq<char>,
    goal: nat,
    donation_amount: nat,
    end_date: int,
)
    requires
        goal <= u64::MAX,
        donation_amount <= u64::MAX,
        i64::MIN <= end_date <= i64::MAX,
    ensures
        creation_rejection(description, goal, donation_amount) is None ==> {
            let campaign = created(ctx, title, description, goal, donation_amount, end_date);
            &&& campaign.goal > 0
            &&& campaign.donation_amount > 0
            &&& campaign.goal % campaign.donation_amount == 0
            &&& campaign.status() == CampaignStatus::Active
            &&& campaign.raised == 0
            &&& campaign.wf()
        },
        byte_len(description) <= MAX_DESCRIPTION_LENGTH && (donation_amount == 0 || goal == 0
            || goal % donation_amount != 0) ==> creation_rejection(
            description,
            goal,
            donation_amount,
        ) == Some(ErrorCode::InvalidGoalAmount),
{
}

/// An accepted donation keeps a campaign well formed, and leaves the donor's
/// record holding exactly one donation.
pub proof fn donation_keeps_well_formed(
    campaign: CampaignView,
    donation: DonationView,
    amount: nat,
    now: int,
)
    requires
        campaign.wf(),
        donation_rejection(campaign, donation, amount, now) is None,
    ensures
        after_donation(campaign, amount).wf(),
        (DonationView { amount, ..donation }).wf_for(after_donation(campaign, amount)),
        (DonationView { amount, ..donation }).is_held(),
{
    let unit = campaign.donation_amount;
    lemma_mod_add_multiples_vanish(campaign.raised as int, unit as int);
    lemma_next_multiple(campaign.raised, campaign.goal, unit);
}

/// Resolving a campaign keeps it well formed.
pub proof fn resolution_keeps_well_formed(campaign: CampaignView, now: int)
    requires
        campaign.wf(),
        resolution_rejection(campaign, now) is None,
    ensures
        after_resolution(campaign).wf(),
{
}

/// A record that holds a donation takes no second one: whatever the campaign
/// has become in the meantime, a further donation on the record of an
/// accepted one is turned away, and as `AlreadyDonated` whenever it comes
/// before the end date with the right amount.
pub proof fn second_donation_is_rejected(
    campaign: CampaignView,
    donation: DonationView,
    amount: nat,
    now: int,
    later: CampaignView,
    second_amount: nat,
    second_now: int,
)
    requires
        campaign.donation_amount > 0,
        donation_rejection(campaign, donation, amount, now) is None,
    ensures
        ({
            let held = DonationView { amount, ..donation };
            &&& donation_rejection(later, held, second_amount, second_now) is Some
            &&& second_now < later.end_date && second_amount == later.donation_amount
                ==> donation_rejection(later, held, second_amount, second_now) == Some(
                ErrorCode::AlreadyDonated,
            )
        }),
{
}

/// The raised total never passes the goal: an accepted donation leaves the
/// total of a well-formed campaign at or below the goal, and funds the
/// campaign exactly when the total meets the goal. A campaign never fails by
/// a donation.
pub proof fn funding_donation_meets_goal_exactly(
    campaign: CampaignView,
    donation: DonationView,
    amount: nat,
    now: int,
)
    requires
        campaign.wf(),
        donation_rejection(campaign, donation, amount, now) is None,
    ensures
        campaign.status() == CampaignStatus::Active,
        after_donation(campaign, amount).raised <= campaign.goal,
        after_donation(campaign, amount).status() == CampaignStatus::Funded <==> after_donation(
            campaign,
            amount,
        ).raised == campaign.goal,
        after_donation(campaign, amount).status() != CampaignStatus::Failed,
{
    lemma_next_multiple(campaign.raised, campaign.goal, campaign.donation_amount);
}

/// On a well-formed campaign the raised total has room for every donation
/// that is not turned away for another reason: none is turned away as
/// `OverflowError`.
pub proof fn well_formed_campaign_has_room(
    campaign: CampaignView,
    donation: DonationView,
    amount: nat,
    now: int,
)
    requires
        campaign.wf(),
    ensures
        donation_rejection(campaign, donation, amount, now) != Some(ErrorCode::OverflowError),
{
    if campaign.status() == CampaignStatus::Active && amount == campaign.donation_amount {
        lemma_next_multiple(campaign.raised, campaign.goal, campaign.donation_amount);
    }
}

/// A campaign becomes funded in the very donation that brings the raised
/// total to the goal.
pub proof fn reaching_goal_funds_at_once(
    campaign: CampaignView,
    donation: DonationView,
    amount: nat,
    now: int,
)
    requires
        donation_rejection(campaign, donation, amount, now) is None,
    ensures
        campaign.status() == CampaignStatus::Active,
        after_donation(campaign, amount).status() == CampaignStatus::Funded <==> campaign.raised
            + amount >= campaign.goal,
        after_donation(campaign, amount).status() == CampaignStatus::Active <==> campaign.raised
            + amount < campaign.goal,
{
}

/// A campaign that is funded or failed stays as it is: it takes no donation
/// at any time, and it is never resolved again. Before the end date, a
/// donation of the right amount on an empty record is turned away as
/// `CampaignAlreadyComplete`.
pub proof fn resolved_campaign_is_final(
    campaign: CampaignView,
    donation: DonationView,
    amount: nat,
    now: int,
)
    requires
        campaign.status() != CampaignStatus::Active,
    ensures
        donation_rejection(campaign, donation, amount, now) is Some,
        now < campaign.end_date && amount == campaign.donation_amount && !donation.is_held()
            ==> donation_rejection(campaign, donation, amount, now) == Some(
            ErrorCode::CampaignAlreadyComplete,
        ),
        resolution_rejection(campaign, now) is Some,
        now >= campaign.end_date ==> resolution_rejection(campaign, now) == Some(
            ErrorCode::CampaignAlreadyComplete,
        ),
{
}

/// No operation sets the second flag of a campaign: an accepted donation and
/// a resolution leave a campaign that was not funded and failed at once not
/// funded and failed at once, whatever else holds of it.
pub proof fn never_funded_and_failed(
    campaign: CampaignView,
    donation: DonationView,
    amount: nat,
    now: int,
)
    requires
        campaign.settled_once(),
    ensures
        donation_rejection(campaign, donation, amount, now) is None ==> after_donation(
            campaign,
            amount,
        ).settled_once(),
        resolution_rejection(campaign, now) is None ==> after_resolution(campaign).settled_once(),
{
}

/// Before the end date a campaign is never resolved. From the end date on, an
/// active campaign is resolved, as funded if and only if the raised total has
/// reached the goal, and as failed if not. A campaign that was resolved is not
/// resolved again: from the end date on, a further attempt is turned away as
/// `CampaignAlreadyComplete`.
pub proof fn resolution_happens_once(campaign: CampaignView, now: int, again: int)
    ensures
        now < campaign.end_date ==> resolution_rejection(campaign, now) == Some(
            ErrorCode::CampaignNotEnded,
        ),
        now >= campaign.end_date && campaign.status() == CampaignStatus::Active
            ==> resolution_rejection(campaign, now) is None,
        campaign.status() == CampaignStatus::Active ==> (after_resolution(campaign).status()
            == CampaignStatus::Funded <==> campaign.raised >= campaign.goal),
        campaign.status() == CampaignStatus::Active ==> (after_resolution(campaign).status()
            == CampaignStatus::Failed <==> campaign.raised < campaign.goal),
        resolution_rejection(campaign, now) is None && again >= campaign.end_date
            ==> resolution_rejection(after_resolution(campaign), again) == Some(
            ErrorCode::CampaignAlreadyComplete,
        ),
        resolution_rejection(campaign, now) is None ==> resolution_rejection(
            after_resolution(campaign),
            again,
        ) is Some,
{
}

/// A campaign that is not funded grants no withdrawal. A funded one grants
/// none while its account holds less than the reserve and the smallest
/// withdrawal together; from there on it grants one, of all that the account
/// holds above the reserve. Once that amount has left the account, the next
/// withdrawal is turned away as `NoFundsAvailable`.
pub proof fn withdrawal_empties_custody(campaign: CampaignView, custody_balance: nat, reserve: nat)
    ensures
        campaign.status() != CampaignStatus::Funded ==> withdrawal_rejection(
            campaign,
            custody_balance,
            reserve,
        ) == Some(ErrorCode::CampaignNotComplete),
        campaign.status() == CampaignStatus::Funded ==> (withdrawal_rejection(
            campaign,
            custody_balance,
            reserve,
        ) is None <==> custody_balance >= reserve + MIN_WITHDRAW_AMOUNT),
        withdrawal_rejection(campaign, custody_balance, reserve) is None ==> {
            let moved = withdrawable(custody_balance, reserve);
            &&& moved == custody_balance - reserve
            &&& withdrawal_rejection(campaign, (custody_balance - moved) as nat, reserve) == Some(
                ErrorCode::NoFundsAvailable,
            )
        },
{
}

/// A campaign that has not failed grants no refund. A failed one grants a
/// donor whose record holds a donation exactly that donation, which is the
/// campaign's donation amount, if its account holds as much; the record is
/// then empty, and a second refund on it is turned away as
/// `NoFundsAvailable`, whatever the account holds by then.
pub proof fn refund_is_granted_once(
    campaign: CampaignView,
    donation: DonationView,
    custody_balance: nat,
    later_balance: nat,
)
    requires
        donation.wf_for(campaign),
    ensures
        !campaign.failed ==> refund_rejection(campaign, donation, custody_balance) == Some(
            ErrorCode::CampaignNotFailed,
        ),
        campaign.settled_once() && campaign.status() != CampaignStatus::Failed
            ==> refund_rejection(campaign, donation, custody_balance) == Some(
            ErrorCode::CampaignNotFailed,
        ),
        campaign.failed && donation.is_held() && custody_balance >= campaign.donation_amount
            ==> refund_rejection(campaign, donation, custody_balance) is None,
        refund_rejection(campaign, donation, custody_balance) is None ==> {
            let emptied = DonationView { amount: 0, ..donation };
            &&& donation.amount == campaign.donation_amount
            &&& custody_balance >= donation.amount
            &&& emptied.wf_for(campaign)
            &&& refund_rejection(campaign, emptied, later_balance) == Some(
                ErrorCode::NoFundsAvailable,
            )
        },
{
}

} // verus!
