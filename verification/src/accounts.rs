//! The accounts that each operation works on, as the ledger presents them.

use vstd::prelude::*;
use crate::campaign::Campaign;
use crate::donation::Donation;
use crate::identity::Identity;

verus! {

/// The accounts of `create_campaign`.
#[derive(Clone, Copy, Debug, PartialEq, Eq)]
pub struct CreateCampaign {
    /// The identity of the account that will store the campaign.
    pub campaign: Identity,
    pub creator: Identity,
    pub foundation: Identity,
}

/// The accounts of `create_donation_pda`.
#[derive(Clone, Copy, Debug, PartialEq, Eq)]
pub struct CreateDonationPda {
    pub donor: Identity,
    /// The identity of the campaign that the record is for.
    pub campaign: Identity,
}

/// The accounts of `donate`.
#[derive(Clone, Debug, PartialEq, Eq)]
pub struct Donate {
    /// The identity of the account that stores the campaign.
    pub campaign_key: Identity,
    pub campaign: Campaign,
    /// The donor's record for this campaign.
    pub donation: Donation,
}

/// The accounts of `end_campaign`.
#[derive(Clone, Debug, PartialEq, Eq)]
pub struct EndCampaign {
    /// The identity of the account that stores the campaign.
    pub campaign_key: Identity,
    pub campaign: Campaign,
}

/// The accounts of `withdraw`.
#[derive(Clone, Debug, PartialEq, Eq)]
pub struct Withdraw {
    /// The identity of the account that stores the campaign.
    pub campaign_key: Identity,
    pub campaign: Campaign,
    /// What the campaign's account holds; after a granted operation, what it
    /// holds once the transfer that the operation orders is carried out.
    pub custody_balance: u64,
}

/// The accounts of `refund`.
#[derive(Clone, Debug, PartialEq, Eq)]
pub struct Refund {
    /// The identity of the account that stores the campaign.
    pub campaign_key: Identity,
    pub campaign: Campaign,
    /// The donor's record for this campaign.
    pub donation: Donation,
    /// What the campaign's account holds; after a granted operation, what it
    /// holds once the transfer that the operation orders is carried out.
    pub custody_balance: u64,
}

/// The accounts of `get_campaign_status`.
#[derive(Clone, Debug, PartialEq, Eq)]
pub struct GetCampaignStatus {
    pub campaign: Campaign,
}

} // verus!
