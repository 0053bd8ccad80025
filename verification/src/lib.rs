//! Fixed-unit crowdfunding: the campaign lifecycle, the per-donor donation
//! record and the settlement rules, as pure functions over plain values.
//!
//! A campaign collects donations of one fixed amount. It is funded in the
//! donation that brings the raised total to the goal, and fails if its end
//! date comes first. The foundation withdraws what a funded campaign holds;
//! the donors of a failed campaign take their donations back, each once.
//!
//! The operations read no clock and move no funds. The caller hands in the
//! accounts as the ledger presents them, the time and the balance of the
//! campaign's account, stores the accounts as the operation leaves them,
//! carries out the transfer that the operation orders, and emits the events
//! that it returns. A withdrawal and a refund take what they order off the
//! balance that was handed in. Who the caller is, the ledger knows:
//! `Campaign::is_foundation` and `Donation::is_donor` match a caller against
//! what the accounts store.
//!
//! - `lifecycle`: `create_campaign`, `create_donation_pda`, `donate`,
//!   `end_campaign`.
//! - `custody`: `check_funded`, `withdraw`, `refund`.
//! - `query`: `get_campaign_status`.
//! - `laws`: what holds of the operations taken together.
//! - `history`: what holds of every state that the operations can lead to.

pub mod accounts;
pub mod campaign;
pub mod custody;
pub mod donation;
pub mod error;
pub mod events;
pub mod history;
pub mod identity;
pub mod laws;
pub mod lifecycle;
pub mod query;

pub use accounts::{
    CreateCampaign, CreateDonationPda, Donate, EndCampaign, GetCampaignStatus, Refund, Withdraw,
};
pub use campaign::{Campaign, CampaignStatus, MAX_DESCRIPTION_LENGTH, MIN_WITHDRAW_AMOUNT};
pub use donation::Donation;
pub use error::ErrorCode;
pub use events::{
    CampaignCompleted, CampaignCreated, CampaignFailed, DonationOutcome, DonationReceived,
    RefundOutcome, RefundProcessed, Resolution, Transfer,
};
pub use custody::{check_funded, refund, withdraw};
pub use identity::Identity;
pub use lifecycle::{create_campaign, create_donation_pda, donate, end_campaign};
pub use query::{get_campaign_status, StatusReport};
