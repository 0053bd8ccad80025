//! Reading a campaign without changing it.

use vstd::prelude::*;
use crate::accounts::GetCampaignStatus;
use crate::campaign::CampaignStatus;

verus! {

/// What a status query tells of a campaign.
#[derive(Clone, Debug, PartialEq, Eq)]
pub struct StatusReport {
    pub title: String,
    pub goal: u64,
    pub raised: u64,
    pub status: CampaignStatus,
}

/// Reports the title, the goal, the raised total and the status of a
/// campaign.
pub fn get_campaign_status(ctx: &GetCampaignStatus) -> (report: StatusReport)
    ensures
        report.title@ == ctx.campaign.title@,
        report.goal == ctx.campaign.goal,
        report.raised == ctx.campaign.raised,
        report.status == ctx.campaign@.status(),
{
    StatusReport {
        title: ctx.campaign.title.clone(),
        goal: ctx.campaign.goal,
        raised: ctx.campaign.raised,
        status: ctx.campaign.status(),
    }
}

} // verus!
