//! What an operation reports to those who watch the campaigns, and what it
//! asks the ledger to move.

use vstd::prelude::*;
use crate::identity::Identity;

verus! {

/// A campaign was created.
#[derive(Clone, Debug, PartialEq, Eq)]
pub struct CampaignCreated {
    pub campaign: Identity,
    pub title: String,
    pub goal: u64,
}

/// A donation was accepted.
#[derive(Clone, Copy, Debug, PartialEq, Eq)]
pub struct DonationReceived {
    pub campaign: Identity,
    pub donor: Identity,
    pub amount: u64,
}

/// A campaign has reached its goal.
#[derive(Clone, Copy, Debug, PartialEq, Eq)]
pub struct CampaignCompleted {
    pub campaign: Identity,
    pub raised: u64,
}

/// A campaign ended below its goal.
#[derive(Clone, Copy, Debug, PartialEq, Eq)]
pub struct CampaignFailed {
    pub campaign: Identity,
    pub raised: u64,
}

/// A donor took a donation back.
#[derive(Clone, Copy, Debug, PartialEq, Eq)]
pub struct RefundProcessed {
    pub campaign: Identity,
    pub donor: Identity,
    pub amount: u64,
}

/// An order to the ledger: move `lamports` from the balance of `from` to the
/// balance of `to`.
#[derive(Clone, Copy, Debug, PartialEq, Eq)]
pub struct Transfer {
    pub from: Identity,
    pub to: Identity,
    pub lamports: u64,
}

/// What an accepted donation leaves to be done: the transfer into the
/// campaign's custody, and the events to emit, in this order.
#[derive(Clone, Copy, Debug, PartialEq, Eq)]
pub struct DonationOutcome {
    pub transfer: Transfer,
    pub received: DonationReceived,
    /// Present when this donation has brought the raised total to the goal
    /// and so funded the campaign.
    pub completed: Option<CampaignCompleted>,
}

/// How a campaign was resolved at its end date, with the event to emit.
#[derive(Clone, Copy, Debug, PartialEq, Eq)]
pub enum Resolution {
    Funded(CampaignCompleted),
    Failed(CampaignFailed),
}

/// What a granted refund leaves to be done: the transfer out of the campaign's
/// custody, and the event to emit.
#[derive(Clone, Copy, Debug, PartialEq, Eq)]
pub struct RefundOutcome {
    pub transfer: Transfer,
    pub processed: RefundProcessed,
}

} // verus!
