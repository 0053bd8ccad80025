//! The named failures of the crowdfunding operations.

use vstd::prelude::*;

verus! {

/// Every way an operation can be turned away. An operation that fails with
/// one of these has changed nothing.
#[derive(Clone, Copy, Debug, PartialEq, Eq, Structural)]
pub enum ErrorCode {
    /// Adding a donation to the raised total would not fit in 64 bits.
    OverflowError,
    /// A donation arrived at or after the campaign's end date.
    CampaignEnded,
    /// A withdrawal was asked of a campaign that is not funded.
    CampaignNotComplete,
    /// Nothing is held that could be withdrawn or refunded, or less than the
    /// refund takes.
    NoFundsAvailable,
    /// A donation differs from the campaign's fixed donation amount.
    InvalidDonationAmount,
    /// The description is longer than the campaign may carry.
    DescriptionTooLong,
    /// What can be withdrawn is below the smallest withdrawal.
    WithdrawAmountTooSmall,
    /// The goal or the donation amount is zero, or the donation amount does
    /// not divide the goal.
    InvalidGoalAmount,
    /// The donor's record already holds a donation.
    AlreadyDonated,
    /// A refund was asked of a campaign that has not failed.
    CampaignNotFailed,
    /// The campaign was asked to end before its end date.
    CampaignNotEnded,
    /// The campaign is funded or failed already: it is not resolved again,
    /// and it takes no donation.
    CampaignAlreadyComplete,
}

impl ErrorCode {
    /// The text that `message` returns for each failure.
    pub open spec fn message_text(self) -> Seq<char> {
        match self {
            ErrorCode::OverflowError => "Overflow error occurred."@,
            ErrorCode::CampaignEnded => "The campaign has already ended."@,
            ErrorCode::CampaignNotComplete => "The campaign has not reached its goal."@,
            ErrorCode::NoFundsAvailable => "No funds available for withdrawal or refund."@,
            ErrorCode::InvalidDonationAmount => "Invalid donation amount."@,
            ErrorCode::DescriptionTooLong => "Campaign description is too long."@,
            ErrorCode::WithdrawAmountTooSmall => "Withdrawal amount is too small."@,
            ErrorCode::InvalidGoalAmount => "Invalid goal amount."@,
            ErrorCode::AlreadyDonated => "You have already donated to this campaign."@,
            ErrorCode::CampaignNotFailed => "The campaign has not failed."@,
            ErrorCode::CampaignNotEnded => "The campaign cannot be ended before its end date."@,
            ErrorCode::CampaignAlreadyComplete => "The campaign is already complete or failed."@,
        }
    }

    /// A sentence for the person who caused the failure.
    pub fn message(&self) -> (text: String)
        ensures
            text@ == self.message_text(),
    {
        let text: &str = match self {
            ErrorCode::OverflowError => "Overflow error occurred.",
            ErrorCode::CampaignEnded => "The campaign has already ended.",
            ErrorCode::CampaignNotComplete => "The campaign has not reached its goal.",
            ErrorCode::NoFundsAvailable => "No funds available for withdrawal or refund.",
            ErrorCode::InvalidDonationAmount => "Invalid donation amount.",
            ErrorCode::DescriptionTooLong => "Campaign description is too long.",
            ErrorCode::WithdrawAmountTooSmall => "Withdrawal amount is too small.",
            ErrorCode::InvalidGoalAmount => "Invalid goal amount.",
            ErrorCode::AlreadyDonated => "You have already donated to this campaign.",
            ErrorCode::CampaignNotFailed => "The campaign has not failed.",
            ErrorCode::CampaignNotEnded => "The campaign cannot be ended before its end date.",
            ErrorCode::CampaignAlreadyComplete => "The campaign is already complete or failed.",
        };
        text.to_owned()
    }
}

} // verus!
