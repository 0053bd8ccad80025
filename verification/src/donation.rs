//! The record of one donor's donation to one campaign.

use vstd::prelude::*;
use crate::campaign::CampaignView;
use crate::identity::Identity;

verus! {

/// What one donor has given to one campaign and not taken back. There is one
/// record for each pair of donor and campaign.
#[derive(Clone, Copy, Debug, PartialEq, Eq)]
pub struct Donation {
    /// Who gave.
    pub donor: Identity,
    /// Zero while nothing is held for the donor; else the amount that the
    /// campaign holds on the donor's behalf.
    pub amount: u64,
}

/// A donation record as a mathematical value.
#[verifier::ext_equal]
pub struct DonationView {
    pub donor: Identity,
    pub amount: nat,
}

impl DonationView {
    /// The campaign holds a donation for this donor.
    pub open spec fn is_held(self) -> bool {
        self.amount > 0
    }

    /// The record holds nothing, or exactly one donation to `campaign`.
    pub open spec fn wf_for(self, campaign: CampaignView) -> bool {
        self.amount == 0 || self.amount == campaign.donation_amount
    }
}

impl View for Donation {
    type V = DonationView;

    open spec fn view(&self) -> DonationView {
        DonationView { donor: self.donor, amount: self.amount as nat }
    }
}

impl Donation {
    /// Whether `caller` is the donor that the record belongs to. Only the
    /// donor may donate on the record or ask for the refund; who the caller
    /// is, the ledger says.
    pub fn is_donor(&self, caller: &Identity) -> (matches: bool)
        ensures
            matches == (self.donor == *caller),
    {
        self.donor == *caller
    }
}

} // verus!
