//! The campaign: what is stored of it, and what must always hold of it.

use vstd::prelude::*;
use vstd::utf8::encode_utf8;
use crate::identity::Identity;

verus! {

/// The longest description a campaign may carry, in bytes of UTF-8.
pub const MAX_DESCRIPTION_LENGTH: usize = 500;

/// The smallest amount that a withdrawal may move.
pub const MIN_WITHDRAW_AMOUNT: u64 = 100_000;

/// Where a campaign stands. `Funded` and `Failed` are final.
#[derive(Clone, Copy, Debug, PartialEq, Eq, Structural)]
pub enum CampaignStatus {
    /// Neither resolved nor funded yet.
    Active,
    /// The goal was reached: the foundation may withdraw.
    Funded,
    /// The end date passed below the goal: donors may take refunds.
    Failed,
}

/// One fundraising effort, as it is stored.
#[derive(Clone, Debug, PartialEq, Eq)]
pub struct Campaign {
    /// Who created the campaign.
    pub creator: Identity,
    /// Who receives the funds of a funded campaign.
    pub foundation: Identity,
    pub title: String,
    pub description: String,
    /// The target amount.
    pub goal: u64,
    /// The one amount that every donation must have.
    pub donation_amount: u64,
    /// The sum of the donations accepted so far.
    pub raised: u64,
    /// The time from which no donation is accepted.
    pub end_date: i64,
    /// Set once the campaign is funded.
    pub complete: bool,
    /// Set once the campaign has failed.
    pub failed: bool,
}

/// The number of bytes that `text` takes in UTF-8.
pub open spec fn byte_len(text: Seq<char>) -> nat {
    encode_utf8(text).len()
}

/// A campaign as a mathematical value.
#[verifier::ext_equal]
pub struct CampaignView {
    pub creator: Identity,
    pub foundation: Identity,
    pub title: Seq<char>,
    pub description: Seq<char>,
    pub goal: nat,
    pub donation_amount: nat,
    pub raised: nat,
    pub end_date: int,
    pub complete: bool,
    pub failed: bool,
}

impl CampaignView {
    /// `Funded` once `complete` is set, else `Failed` once `failed` is set,
    /// else `Active`.
    pub open spec fn status(self) -> CampaignStatus {
        if self.complete {
            CampaignStatus::Funded
        } else if self.failed {
            CampaignStatus::Failed
        } else {
            CampaignStatus::Active
        }
    }

    /// The numbers fit the machine types that store them.
    pub open spec fn storable(self) -> bool {
        &&& self.goal <= u64::MAX
        &&& self.donation_amount <= u64::MAX
        &&& self.raised <= u64::MAX
        &&& i64::MIN <= self.end_date <= i64::MAX
    }

    /// The campaign is not funded and failed at once.
    pub open spec fn settled_once(self) -> bool {
        !(self.complete && self.failed)
    }

    /// What holds of every campaign that was created by `create_campaign` and
    /// changed only by the operations of this library: the goal and the
    /// donation amount are positive, and the donation amount divides both the
    /// goal and the raised total; the description is within its bound; the
    /// campaign is not funded and failed at once; the raised total never
    /// passes the goal, and it has reached the goal exactly when the campaign
    /// is funded.
    pub open spec fn wf(self) -> bool {
        &&& self.storable()
        &&& self.goal > 0
        &&& self.donation_amount > 0
        &&& self.goal % self.donation_amount == 0
        &&& self.raised % self.donation_amount == 0
        &&& byte_len(self.description) <= MAX_DESCRIPTION_LENGTH
        &&& self.settled_once()
        &&& self.raised <= self.goal
        &&& self.complete <==> self.raised == self.goal
    }
}

impl View for Campaign {
    type V = CampaignView;

    open spec fn view(&self) -> CampaignView {
        CampaignView {
            creator: self.creator,
            foundation: self.foundation,
            title: self.title@,
            description: self.description@,
            goal: self.goal as nat,
            donation_amount: self.donation_amount as nat,
            raised: self.raised as nat,
            end_date: self.end_date as int,
            complete: self.complete,
            failed: self.failed,
        }
    }
}

impl Campaign {
    /// Whether `caller` is the foundation that the campaign pays out to. Only
    /// the foundation may ask for a withdrawal; who the caller is, the ledger
    /// says.
    pub fn is_foundation(&self, caller: &Identity) -> (matches: bool)
        ensures
            matches == (self.foundation == *caller),
    {
        self.foundation == *caller
    }

    /// Where the campaign stands.
    pub fn status(&self) -> (status: CampaignStatus)
        ensures
            status == self@.status(),
    {
        if self.complete {
            CampaignStatus::Funded
        } else if self.failed {
            CampaignStatus::Failed
        } else {
            CampaignStatus::Active
        }
    }
}

} // verus!
