//! Histories of one campaign: what holds of every state that the operations
//! can lead to, whatever the order in which they are asked for.
//!
//! A `World` is a campaign with the records of its donors and the balance of
//! its account. A `Step` is one operation that somebody asks for; `step` says
//! what becomes of the world, by the same functions that the contracts of the
//! operations use: a step is granted exactly when the operation returns `Ok`,
//! and the campaign, the record and the custody balance after it are those
//! that the operation leaves. A history is a row of steps.

use vstd::prelude::*;
use crate::accounts::CreateCampaign;
use crate::campaign::{CampaignStatus, CampaignView};
use crate::custody::{refund_rejection, withdrawable, withdrawal_rejection};
use crate::donation::DonationView;
use crate::error::ErrorCode;
use crate::identity::Identity;
use crate::laws::{
    creation_demands_divisible_goal, donation_keeps_well_formed, resolution_keeps_well_formed,
};
use crate::lifecycle::{
    after_donation, after_resolution, created, creation_rejection, donation_rejection,
    resolution_rejection,
};

verus! {

/// A campaign, the records of its donors, and its account.
pub struct World {
    pub campaign: CampaignView,
    /// The donors' records for this campaign, each under its donor: there is
    /// at most one for each pair of donor and campaign.
    pub records: Map<Identity, DonationView>,
    /// What the campaign's account holds.
    pub custody: nat,
    /// What the campaign's account must keep.
    pub reserve: nat,
}

/// One operation that is asked of a world.
pub enum Step {
    /// `donor` opens a record.
    Open { donor: Identity },
    /// `donor` offers `amount` at time `now`.
    Donate { donor: Identity, amount: nat, now: int },
    /// The campaign is asked to end at time `now`.
    End { now: int },
    /// The foundation asks for the funds.
    Withdraw,
    /// `donor` asks for the donation back.
    Refund { donor: Identity },
}

impl World {
    /// The donors for whom the campaign holds a donation.
    pub open spec fn holders(self) -> Set<Identity> {
        Set::new(|donor: Identity| self.records.contains_key(donor) && self.records[donor].is_held())
    }

    /// Whether the step is granted. A record is opened only for a donor who
    /// has none; the other steps are granted when the operation that they
    /// stand for is not turned away.
    pub open spec fn grants(self, step: Step) -> bool {
        match step {
            Step::Open { donor } => !self.records.contains_key(donor),
            Step::Donate { donor, amount, now } => self.records.contains_key(donor)
                && donation_rejection(self.campaign, self.records[donor], amount, now) is None,
            Step::End { now } => resolution_rejection(self.campaign, now) is None,
            Step::Withdraw => withdrawal_rejection(self.campaign, self.custody, self.reserve)
                is None,
            Step::Refund { donor } => self.records.contains_key(donor) && refund_rejection(
                self.campaign,
                self.records[donor],
                self.custody,
            ) is None,
        }
    }

    /// The world after a step. A step that is not granted changes nothing. A
    /// granted one changes the campaign and the donor's record as the
    /// operation does, and moves what the operation orders to be moved into
    /// or out of the campaign's account.
    pub open spec fn step(self, step: Step) -> World {
        if !self.grants(step) {
            self
        } else {
            match step {
                Step::Open { donor } => World {
                    records: self.records.insert(donor, DonationView { donor, amount: 0 }),
                    ..self
                },
                Step::Donate { donor, amount, now } => World {
                    campaign: after_donation(self.campaign, amount),
                    records: self.records.insert(
                        donor,
                        DonationView { amount, ..self.records[donor] },
                    ),
                    custody: self.custody + amount,
                    ..self
                },
                Step::End { now } => World { campaign: after_resolution(self.campaign), ..self },
                Step::Withdraw => World {
                    custody: (self.custody - withdrawable(self.custody, self.reserve)) as nat,
                    ..self
                },
                Step::Refund { donor } => World {
                    records: self.records.insert(
                        donor,
                        DonationView { amount: 0, ..self.records[donor] },
                    ),
                    custody: (self.custody - self.records[donor].amount) as nat,
                    ..self
                },
            }
        }
    }

    /// The world after a row of steps, first to last.
    pub open spec fn run(self, steps: Seq<Step>) -> World
        decreases steps.len(),
    {
        if steps.len() == 0 {
            self
        } else {
            self.run(steps.drop_last()).step(steps.last())
        }
    }

    /// How many donations of `donor` are accepted in a row of steps.
    pub open spec fn donations_of(self, steps: Seq<Step>, donor: Identity) -> nat
        decreases steps.len(),
    {
        if steps.len() == 0 {
            0
        } else {
            let last = steps.last();
            let accepted = last is Donate && last->Donate_donor == donor && self.run(
                steps.drop_last(),
            ).grants(last);
            self.donations_of(steps.drop_last(), donor) + if accepted {
                1nat
            } else {
                0nat
            }
        }
    }

    /// How many donations are accepted in a row of steps.
    pub open spec fn donations(self, steps: Seq<Step>) -> nat
        decreases steps.len(),
    {
        if steps.len() == 0 {
            0
        } else {
            let last = steps.last();
            let accepted = last is Donate && self.run(steps.drop_last()).grants(last);
            self.donations(steps.drop_last()) + if accepted {
                1nat
            } else {
                0nat
            }
        }
    }

    /// How many refunds are granted in a row of steps.
    pub open spec fn refunds(self, steps: Seq<Step>) -> nat
        decreases steps.len(),
    {
        if steps.len() == 0 {
            0
        } else {
            let last = steps.last();
            let granted = last is Refund && self.run(steps.drop_last()).grants(last);
            self.refunds(steps.drop_last()) + if granted {
                1nat
            } else {
                0nat
            }
        }
    }

    /// What holds of a world throughout its history: the campaign is well
    /// formed; every record stands under its own donor and holds nothing or
    /// exactly one donation; the account holds its reserve, and, as long as
    /// the campaign is not funded, one donation above the reserve for every
    /// donor for whom it holds one.
    pub open spec fn sound(self) -> bool {
        &&& self.campaign.wf()
        &&& forall|donor: Identity| #[trigger]
            self.records.contains_key(donor) ==> self.records[donor].donor == donor
                && self.records[donor].wf_for(self.campaign)
        &&& self.holders().finite()
        &&& self.custody >= self.reserve
        &&& !self.campaign.complete ==> self.custody >= self.reserve
            + self.campaign.donation_amount * self.holders().len()
    }
}

/// Every step of the row is an offer of a donation.
pub open spec fn only_donations(steps: Seq<Step>) -> bool {
    forall|i: int| 0 <= i < steps.len() ==> #[trigger] steps[i] is Donate
}

/// A step of the row is a request of `donor` for a refund.
pub open spec fn asks_refund(steps: Seq<Step>, donor: Identity) -> bool
    decreases steps.len(),
{
    steps.len() > 0 && (steps.last() == (Step::Refund { donor }) || asks_refund(
        steps.drop_last(),
        donor,
    ))
}

/// Every step of the row is a request for a refund, each of another donor,
/// and each of a donor for whom the campaign of `world` holds a donation.
pub open spec fn refunds_of_holders(world: World, steps: Seq<Step>) -> bool
    decreases steps.len(),
{
    steps.len() == 0 || {
        &&& refunds_of_holders(world, steps.drop_last())
        &&& steps.last() is Refund
        &&& world.holders().contains(steps.last()->Refund_donor)
        &&& !asks_refund(steps.drop_last(), steps.last()->Refund_donor)
    }
}

/// A step is the operation that it stands for. An offer of a donation is
/// granted exactly when `donate` is not turned away on the campaign and the
/// donor's record, and leaves the campaign and the record that `donate`
/// leaves, with the amount of its transfer in the account. A request for a
/// refund is granted exactly when `refund` is not turned away, and leaves the
/// record and the custody balance that `refund` leaves. A withdrawal is
/// granted exactly when `withdraw` is not turned away, and leaves the custody
/// balance that `withdraw` leaves. A request to end is granted exactly when
/// `end_campaign` is not turned away, and leaves the campaign that it leaves.
pub proof fn steps_are_the_operations(world: World, donor: Identity, amount: nat, now: int)
    requires
        world.records.contains_key(donor),
    ensures
        ({
            let offer = Step::Donate { donor, amount, now };
            let rejection = donation_rejection(world.campaign, world.records[donor], amount, now);
            &&& world.grants(offer) <==> rejection is None
            &&& world.grants(offer) ==> {
                &&& world.step(offer).campaign == after_donation(world.campaign, amount)
                &&& world.step(offer).records[donor] == (DonationView {
                    amount,
                    ..world.records[donor]
                })
                &&& world.step(offer).custody == world.custody + amount
            }
        }),
        ({
            let request = Step::Refund { donor };
            let rejection = refund_rejection(world.campaign, world.records[donor], world.custody);
            &&& world.grants(request) <==> rejection is None
            &&& world.grants(request) ==> {
                &&& world.step(request).campaign == world.campaign
                &&& world.step(request).records[donor] == (DonationView {
                    amount: 0,
                    ..world.records[donor]
                })
                &&& world.step(request).custody == world.custody - world.records[donor].amount
            }
        }),
        ({
            let rejection = withdrawal_rejection(world.campaign, world.custody, world.reserve);
            &&& world.grants(Step::Withdraw) <==> rejection is None
            &&& world.grants(Step::Withdraw) ==> {
                &&& world.step(Step::Withdraw).campaign == world.campaign
                &&& world.step(Step::Withdraw).custody == world.reserve
            }
        }),
        ({
            let rejection = resolution_rejection(world.campaign, now);
            &&& world.grants(Step::End { now }) <==> rejection is None
            &&& world.grants(Step::End { now }) ==> world.step(Step::End { now }).campaign
                == after_resolution(world.campaign)
        }),
        forall|step: Step| !world.grants(step) ==> #[trigger] world.step(step) == world,
{
}

/// A campaign that was just created, with no record opened yet and an account
/// that holds at least its reserve, is a sound world.
pub proof fn new_world_is_sound(
    ctx: CreateCampaign,
    title: Seq<char>,
    description: Seq<char>,
    goal: nat,
    donation_amount: nat,
    end_date: int,
    custody: nat,
    reserve: nat,
)
    requires
        goal <= u64::MAX,
        donation_amount <= u64::MAX,
        i64::MIN <= end_date <= i64::MAX,
        creation_rejection(description, goal, donation_amount) is None,
        custody >= reserve,
    ensures
        (World {
            campaign: created(ctx, title, description, goal, donation_amount, end_date),
            records: Map::empty(),
            custody,
            reserve,
        }).sound(),
{
    creation_demands_divisible_goal(ctx, title, description, goal, donation_amount, end_date);
    let world = World {
        campaign: created(ctx, title, description, goal, donation_amount, end_date),
        records: Map::empty(),
        custody,
        reserve,
    };
    assert(world.holders() =~= Set::empty());
    assert(donation_amount * 0 == 0) by (nonlinear_arith);
}

/// Every step leads from a sound world to a sound world.
pub proof fn step_keeps_sound(world: World, step: Step)
    requires
        world.sound(),
    ensures
        world.step(step).sound(),
{
    let next = world.step(step);
    let unit = world.campaign.donation_amount;
    let held = world.holders().len();
    if world.grants(step) {
        match step {
            Step::Open { donor } => {
                assert(next.holders() =~= world.holders());
            },
            Step::Donate { donor, amount, now } => {
                donation_keeps_well_formed(world.campaign, world.records[donor], amount, now);
                assert(next.holders() =~= world.holders().insert(donor));
                assert(unit * (held + 1) == unit * held + unit) by (nonlinear_arith);
            },
            Step::End { now } => {
                resolution_keeps_well_formed(world.campaign, now);
                assert(next.holders() =~= world.holders());
            },
            Step::Withdraw => {
                assert(next.holders() =~= world.holders());
            },
            Step::Refund { donor } => {
                assert(world.holders().contains(donor));
                assert(next.holders() =~= world.holders().remove(donor));
                assert(unit * held == unit * (held - 1) + unit) by (nonlinear_arith);
            },
        }
    }
}

/// Every history of a sound world leads to a sound world: the campaign stays
/// well formed, the raised total never passes the goal, and the account
/// covers every donation that may still be refunded.
pub proof fn history_keeps_sound(world: World, steps: Seq<Step>)
    requires
        world.sound(),
    ensures
        world.run(steps).sound(),
    decreases steps.len(),
{
    if steps.len() > 0 {
        history_keeps_sound(world, steps.drop_last());
        step_keeps_sound(world.run(steps.drop_last()), steps.last());
    }
}

/// In every history of a sound world each donor has at most one donation
/// accepted, and none where the campaign held a donation of the donor's at
/// the start. A donor whose donation was accepted has a record that still
/// holds it, unless the campaign has failed.
pub proof fn one_donation_for_each_donor(world: World, steps: Seq<Step>, donor: Identity)
    requires
        world.sound(),
    ensures
        world.donations_of(steps, donor) <= 1,
        world.holders().contains(donor) ==> world.donations_of(steps, donor) == 0,
        world.donations_of(steps, donor) == 1 || world.holders().contains(donor) ==> {
            let end = world.run(steps);
            end.records.contains_key(donor) && (end.records[donor].is_held()
                || end.campaign.failed)
        },
    decreases steps.len(),
{
    if steps.len() > 0 {
        let earlier = steps.drop_last();
        one_donation_for_each_donor(world, earlier, donor);
        history_keeps_sound(world, earlier);
    }
}

/// After every history the raised total has grown by the donation amount for
/// each donation that was accepted, and by nothing else; the terms of the
/// campaign are what they were.
pub proof fn raised_is_sum_of_donations(world: World, steps: Seq<Step>)
    ensures
        world.run(steps).campaign.raised == world.campaign.raised + world.donations(steps)
            * world.campaign.donation_amount,
        world.run(steps).campaign.donation_amount == world.campaign.donation_amount,
        world.run(steps).campaign.goal == world.campaign.goal,
        world.run(steps).campaign.end_date == world.campaign.end_date,
        world.run(steps).campaign.foundation == world.campaign.foundation,
        world.run(steps).reserve == world.reserve,
    decreases steps.len(),
{
    let unit = world.campaign.donation_amount;
    if steps.len() == 0 {
        assert(0 * unit == 0) by (nonlinear_arith);
    } else {
        let earlier = steps.drop_last();
        raised_is_sum_of_donations(world, earlier);
        let count = world.donations(earlier);
        assert((count + 1) * unit == count * unit + unit) by (nonlinear_arith);
    }
}

/// After a row of offers of donations to a sound world, of which some are
/// accepted and some turned away, and with no other operation between them:
/// the raised total and the account have both grown by the donation amount
/// for each accepted donation, and the campaign holds a donation for as many
/// donors more as donations were accepted. Every record holds the donation
/// amount or nothing.
pub proof fn row_of_donations(world: World, steps: Seq<Step>)
    requires
        world.sound(),
        only_donations(steps),
    ensures
        world.run(steps).campaign.raised == world.campaign.raised + world.donations(steps)
            * world.campaign.donation_amount,
        world.run(steps).custody == world.custody + world.donations(steps)
            * world.campaign.donation_amount,
        world.run(steps).holders().len() == world.holders().len() + world.donations(steps),
        world.run(steps).sound(),
    decreases steps.len(),
{
    let unit = world.campaign.donation_amount;
    raised_is_sum_of_donations(world, steps);
    history_keeps_sound(world, steps);
    if steps.len() == 0 {
        assert(0 * unit == 0) by (nonlinear_arith);
    } else {
        let earlier = steps.drop_last();
        let last = steps.last();
        let before = world.run(earlier);
        assert(only_donations(earlier)) by {
            assert forall|i: int| 0 <= i < earlier.len() implies #[trigger] earlier[i] is Donate by {
                assert(steps[i] is Donate);
            }
        }
        assert(last is Donate);
        row_of_donations(world, earlier);
        raised_is_sum_of_donations(world, earlier);
        let count = world.donations(earlier);
        assert((count + 1) * unit == count * unit + unit) by (nonlinear_arith);
        if before.grants(last) {
            let donor = last->Donate_donor;
            assert(before.step(last).holders() =~= before.holders().insert(donor));
        }
    }
}

/// After a row of requests for refunds to a sound world whose campaign has
/// failed, each of another donor for whom the campaign holds a donation, in
/// whatever order: every request is granted; the account has given up the
/// donation amount for each; the records of those donors are empty and all
/// others are as they were; the campaign is as it was, and so is its raised
/// total.
pub proof fn row_of_refunds(world: World, steps: Seq<Step>)
    requires
        world.sound(),
        world.campaign.failed,
        refunds_of_holders(world, steps),
    ensures
        world.refunds(steps) == steps.len(),
        world.run(steps).campaign == world.campaign,
        world.run(steps).reserve == world.reserve,
        world.run(steps).custody + steps.len() * world.campaign.donation_amount == world.custody,
        world.run(steps).holders().len() + steps.len() == world.holders().len(),
        forall|donor: Identity|
            asks_refund(steps, donor) ==> #[trigger] world.run(steps).records.contains_key(donor)
                && !world.run(steps).records[donor].is_held(),
        forall|donor: Identity|
            !asks_refund(steps, donor) ==> (#[trigger] world.run(steps).records.contains_key(donor)
                <==> world.records.contains_key(donor)),
        forall|donor: Identity|
            !asks_refund(steps, donor) && world.records.contains_key(donor) ==> #[trigger] world.run(
                steps,
            ).records[donor] == world.records[donor],
        world.run(steps).sound(),
    decreases steps.len(),
{
    let unit = world.campaign.donation_amount;
    history_keeps_sound(world, steps);
    if steps.len() == 0 {
        assert(0 * unit == 0) by (nonlinear_arith);
    } else {
        let earlier = steps.drop_last();
        let last = steps.last();
        let donor = last->Refund_donor;
        let before = world.run(earlier);
        row_of_refunds(world, earlier);
        history_keeps_sound(world, earlier);
        assert(last == (Step::Refund { donor }));
        assert(world.records.contains_key(donor) && world.records[donor].is_held());
        assert(before.records[donor] == world.records[donor]);
        assert(before.holders().contains(donor));
        let held = before.holders().len();
        assert(unit * held >= unit) by (nonlinear_arith)
            requires
                held >= 1,
        ;
        assert(before.grants(last));
        assert(before.step(last).holders() =~= before.holders().remove(donor));
        assert((earlier.len() + 1) * unit == earlier.len() * unit + unit) by (nonlinear_arith);
        assert(steps.len() == earlier.len() + 1);
    }
}

/// A campaign that is funded is funded after every history, and one that has
/// failed has failed after every history: neither becomes active again, and
/// neither becomes the other.
pub proof fn resolved_is_final(world: World, steps: Seq<Step>)
    requires
        world.campaign.settled_once(),
    ensures
        world.run(steps).campaign.settled_once(),
        world.campaign.status() == CampaignStatus::Funded ==> world.run(steps).campaign.status()
            == CampaignStatus::Funded,
        world.campaign.status() == CampaignStatus::Failed ==> world.run(steps).campaign.status()
            == CampaignStatus::Failed,
    decreases steps.len(),
{
    if steps.len() > 0 {
        resolved_is_final(world, steps.drop_last());
    }
}

/// In a sound world whose campaign has failed, every donor for whom the
/// campaign holds a donation is granted the refund: the account covers it,
/// what the refund moves out is the donation amount, it leaves the reserve in
/// the account, and it is not granted a second time. And a withdrawal that is
/// granted leaves exactly the reserve, so that the next one is turned away as
/// `NoFundsAvailable`.
pub proof fn settlement_never_overdraws(world: World, donor: Identity)
    requires
        world.sound(),
    ensures
        world.campaign.failed && world.holders().contains(donor) ==> world.grants(
            Step::Refund { donor },
        ),
        world.grants(Step::Refund { donor }) ==> {
            &&& world.records[donor].amount == world.campaign.donation_amount
            &&& world.custody >= world.reserve + world.records[donor].amount
            &&& world.step(Step::Refund { donor }).custody == world.custody
                - world.records[donor].amount
            &&& !world.step(Step::Refund { donor }).grants(Step::Refund { donor })
        },
        world.grants(Step::Withdraw) ==> {
            &&& world.step(Step::Withdraw).custody == world.reserve
            &&& withdrawal_rejection(
                world.step(Step::Withdraw).campaign,
                world.step(Step::Withdraw).custody,
                world.reserve,
            ) == Some(ErrorCode::NoFundsAvailable)
        },
{
    let unit = world.campaign.donation_amount;
    let held = world.holders().len();
    if world.holders().contains(donor) {
        assert(unit * held >= unit) by (nonlinear_arith)
            requires
                held >= 1,
        ;
    }
}

} // verus!
