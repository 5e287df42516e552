//! SIM cards: payloads and the rules for creating them and associating them
//! with trackers, whose models have a fixed number of SIM card slots.

use vstd::prelude::*;
use crate::database::{set_if_some, ActiveValue};
use crate::error_codes::{PHONE_NUMBER_IN_USE, SSN_IN_USE};
use crate::responses::{api_error, api_error_string, internal_error_res, is_error, ApiError, BAD_REQUEST, INTERNAL_SERVER_ERROR};
use crate::text::{decimal, text_with_int, text_with_ints};
use crate::validation::{check_length, length_ok, range_ok, rule, Collector, Validate, Violations, ViolationView};

verus! {

/// Payload to create a SIM card.
#[derive(Clone, Debug)]
pub struct CreateSimCardDto {
    pub ssn: String,
    pub phone_number: String,
    pub apn_user: String,
    pub apn_address: String,
    pub apn_password: String,
    pub pin: Option<String>,
    pub pin2: Option<String>,
    pub puk: Option<String>,
    pub puk2: Option<String>,
    /// Tracker to install the SIM card in.
    pub vehicle_tracker_id: Option<i32>,
}

impl Validate for CreateSimCardDto {
    open spec fn violations(&self) -> Seq<ViolationView> {
        rule(length_ok(self.ssn@, Some(1), None), "ssn", "length", None) + match self.vehicle_tracker_id {
            Some(id) => rule(range_ok(id as int, Some(1), None), "vehicle_tracker_id", "range", None),
            None => Seq::<ViolationView>::empty(),
        }
    }

    fn validate(&self) -> (r: Result<(), Violations>) {
        let mut c = Collector::new();
        c.check(check_length(self.ssn.as_str(), Some(1), None), "ssn", "length", None);
        match self.vehicle_tracker_id {
            Some(id) => c.check(id >= 1, "vehicle_tracker_id", "range", None),
            None => {
                assert(c.seen() =~= c.seen() + Seq::<ViolationView>::empty());
            },
        }
        c.finish()
    }
}

/// Payload to update a SIM card: absent fields are left as they are; for
/// the nullable ones, `Some(None)` clears the value.
#[derive(Clone, Debug)]
pub struct UpdateSimCardDto {
    pub ssn: Option<String>,
    pub phone_number: Option<String>,
    pub apn_user: Option<String>,
    pub apn_address: Option<String>,
    pub apn_password: Option<String>,
    pub pin: Option<Option<String>>,
    pub pin2: Option<Option<String>>,
    pub puk: Option<Option<String>>,
    pub puk2: Option<Option<String>>,
}

impl Validate for UpdateSimCardDto {
    open spec fn violations(&self) -> Seq<ViolationView> {
        Seq::<ViolationView>::empty()
    }

    fn validate(&self) -> (r: Result<(), Violations>) {
        Collector::new().finish()
    }
}

/// The column changes of a SIM card update.
pub struct SimCardChanges {
    pub ssn: ActiveValue<String>,
    pub phone_number: ActiveValue<String>,
    pub apn_user: ActiveValue<String>,
    pub apn_address: ActiveValue<String>,
    pub apn_password: ActiveValue<String>,
    pub pin: ActiveValue<Option<String>>,
    pub pin2: ActiveValue<Option<String>>,
    pub puk: ActiveValue<Option<String>>,
    pub puk2: ActiveValue<Option<String>>,
}

impl UpdateSimCardDto {
    /// Each given field is set, each absent one left unchanged.
    pub fn into_changes(self) -> (c: SimCardChanges)
        ensures
            c.ssn == set_if_some(self.ssn),
            c.phone_number == set_if_some(self.phone_number),
            c.apn_user == set_if_some(self.apn_user),
            c.apn_address == set_if_some(self.apn_address),
            c.apn_password == set_if_some(self.apn_password),
            c.pin == set_if_some(self.pin),
            c.pin2 == set_if_some(self.pin2),
            c.puk == set_if_some(self.puk),
            c.puk2 == set_if_some(self.puk2),
    {
        SimCardChanges {
            ssn: set_if_some(self.ssn),
            phone_number: set_if_some(self.phone_number),
            apn_user: set_if_some(self.apn_user),
            apn_address: set_if_some(self.apn_address),
            apn_password: set_if_some(self.apn_password),
            pin: set_if_some(self.pin),
            pin2: set_if_some(self.pin2),
            puk: set_if_some(self.puk),
            puk2: set_if_some(self.puk2),
        }
    }
}

/// Filters of a SIM card listing.
#[derive(Clone, Debug)]
pub struct ListSimCardsDto {
    /// Search by phone number.
    pub phone_number: Option<String>,
    /// Only SIM cards with (or without) a tracker; `None` means any.
    pub with_associated_tracker: Option<bool>,
}

impl Validate for ListSimCardsDto {
    open spec fn violations(&self) -> Seq<ViolationView> {
        Seq::<ViolationView>::empty()
    }

    fn validate(&self) -> (r: Result<(), Violations>) {
        Collector::new().finish()
    }
}

/// Payload to set (`Some(Some(id))`) or clear (`Some(None)`) the tracker
/// of a SIM card; the key is required.
#[derive(Clone, Debug)]
pub struct SetSimCardTrackerDto {
    pub vehicle_tracker_id: Option<Option<i32>>,
}

impl Validate for SetSimCardTrackerDto {
    open spec fn violations(&self) -> Seq<ViolationView> {
        rule(self.vehicle_tracker_id is Some, "vehicle_tracker_id", "required", None)
    }

    fn validate(&self) -> (r: Result<(), Violations>) {
        let mut c = Collector::new();
        c.check(self.vehicle_tracker_id.is_some(), "vehicle_tracker_id", "required", None);
        c.finish()
    }
}

/// Whether a tracker holding `sims_on_tracker` SIM cards, of a model with
/// `slots` slots, has room for one more.
pub open spec fn has_free_slot(sims_on_tracker: int, slots: int) -> bool {
    sims_on_tracker + 1 <= slots
}

/// A tracker has a free SIM slot exactly when it holds fewer cards than
/// its model has slots; an empty tracker of a model with a slot has one.
pub proof fn lemma_free_slot(sims_on_tracker: int, slots: int)
    requires
        sims_on_tracker >= 0,
    ensures
        has_free_slot(sims_on_tracker, slots) <==> sims_on_tracker < slots,
        slots >= 1 ==> has_free_slot(0, slots),
{
}

/// Checks that the tracker a new SIM card goes into exists in the
/// organization (`slots` is the number of SIM slots of its model, if it
/// does) and has a free slot.
pub fn check_tracker_for_new_sim_card(
    tracker_id: i32,
    org_id: i32,
    slots: Option<u8>,
    sims_on_tracker: i64,
) -> (r: Result<(), ApiError>)
    ensures
        slots is None ==> (r matches Err(e) && is_error(
            e,
            BAD_REQUEST,
            "vehicle_tracker: "@ + decimal(tracker_id as int) + " not found for org "@ + decimal(
                org_id as int,
            ),
        )),
        slots matches Some(n) ==> (r is Ok <==> has_free_slot(sims_on_tracker as int, n as int)),
        slots matches Some(n) && 0 <= sims_on_tracker < n ==> r is Ok,
        slots matches Some(n) ==> (r matches Err(e) ==> is_error(
            e,
            BAD_REQUEST,
            "vehicle_tracker: "@ + decimal(tracker_id as int) + " does not have a empty SIM card slot"@,
        )),
{
    proof {
        reveal_strlit("");
    }
    match slots {
        None => Err(api_error_string(
            BAD_REQUEST,
            text_with_ints("vehicle_tracker: ", tracker_id as i64, " not found for org ", org_id as i64, ""),
        )),
        Some(n) => {
            if (sims_on_tracker as i128) + 1 > n as i128 {
                Err(api_error_string(
                    BAD_REQUEST,
                    text_with_int("vehicle_tracker: ", tracker_id as i64, " does not have a empty SIM card slot"),
                ))
            } else {
                Ok(())
            }
        },
    }
}

/// Refuses a new SIM card whose SSN or phone number another SIM card of
/// the organization already has; the SSN is checked first.
pub fn check_sim_card_unique(ssn_in_use: bool, phone_number_in_use: bool) -> (r: Result<(), ApiError>)
    ensures
        ssn_in_use ==> (r matches Err(e) && is_error(e, BAD_REQUEST, SSN_IN_USE@)),
        !ssn_in_use && phone_number_in_use ==> (r matches Err(e) && is_error(e, BAD_REQUEST, PHONE_NUMBER_IN_USE@)),
        !ssn_in_use && !phone_number_in_use ==> r is Ok,
{
    if ssn_in_use {
        return Err(api_error(BAD_REQUEST, SSN_IN_USE));
    }
    if phone_number_in_use {
        return Err(api_error(BAD_REQUEST, PHONE_NUMBER_IN_USE));
    }
    Ok(())
}

/// What a request to set a SIM card's tracker leads to.
#[derive(Debug)]
pub enum SimCardTrackerOutcome {
    /// Store the given tracker (or none) on the SIM card.
    Update(Option<i32>),
    /// Nothing to change: answer with the given message.
    Unchanged(String),
}

/// The tracker choice of a validated payload; a payload without it is an
/// internal error (validation requires it).
pub fn tracker_choice(payload: &SetSimCardTrackerDto) -> (r: Result<Option<i32>, ApiError>)
    ensures
        match payload.vehicle_tracker_id {
            Some(choice) => r == Ok::<Option<i32>, ApiError>(choice),
            None => r matches Err(e) && is_error(e, INTERNAL_SERVER_ERROR, "internal server error"@),
        },
{
    match payload.vehicle_tracker_id {
        Some(choice) => Ok(choice),
        None => Err(internal_error_res()),
    }
}

/// Decides a change of SIM card `sim_card_id`'s tracker to `new_tracker`,
/// given the tracker the card has now and, when a new tracker is chosen,
/// the SIM slots of its model (if it exists in the organization) and the
/// number of SIM cards it already holds. A card bound to another tracker
/// is not moved: it must be released (set to no tracker) first.
pub fn decide_sim_card_tracker(
    sim_card_id: i32,
    current_tracker: Option<i32>,
    new_tracker: Option<i32>,
    slots: Option<u8>,
    sims_on_tracker: i64,
) -> (r: Result<SimCardTrackerOutcome, ApiError>)
    ensures
        match new_tracker {
            None => r == Ok::<SimCardTrackerOutcome, ApiError>(SimCardTrackerOutcome::Update(None)),
            Some(id) => match slots {
                None => r matches Err(e) && is_error(e, 404, "tracker not found"@),
                Some(n) => if current_tracker == Some(id) {
                    r matches Ok(SimCardTrackerOutcome::Unchanged(m)) && m@
                        == "sim card is already associated with tracker: "@ + decimal(id as int)
                } else if current_tracker is Some {
                    r matches Err(e) && is_error(
                        e,
                        BAD_REQUEST,
                        "sim card "@ + decimal(sim_card_id as int) + " is already has a tracker"@,
                    )
                } else if !has_free_slot(sims_on_tracker as int, n as int) {
                    r matches Err(e) && is_error(
                        e,
                        BAD_REQUEST,
                        "associating the sim card with the tracker would overflow the SIM slots for the tracker model"@,
                    )
                } else {
                    r matches Ok(SimCardTrackerOutcome::Update(t)) && t == Some(id)
                },
            },
        },
{
    proof {
        reveal_strlit("");
    }
    match new_tracker {
        None => Ok(SimCardTrackerOutcome::Update(None)),
        Some(id) => match slots {
            None => Err(api_error(404, "tracker not found")),
            Some(n) => {
                if current_tracker == Some(id) {
                    Ok(SimCardTrackerOutcome::Unchanged(
                        text_with_int("sim card is already associated with tracker: ", id as i64, ""),
                    ))
                } else if current_tracker.is_some() {
                    Err(api_error_string(
                        BAD_REQUEST,
                        text_with_int("sim card ", sim_card_id as i64, " is already has a tracker"),
                    ))
                } else if (sims_on_tracker as i128) + 1 > n as i128 {
                    Err(api_error(
                        BAD_REQUEST,
                        "associating the sim card with the tracker would overflow the SIM slots for the tracker model",
                    ))
                } else {
                    Ok(SimCardTrackerOutcome::Update(Some(id)))
                }
            },
        },
    }
}

/// The answer to a deletion of SIM cards by id within the organization:
/// an error when no row was deleted.
pub fn sim_card_deletion_response(rows_affected: u64) -> (r: Result<String, ApiError>)
    ensures
        rows_affected >= 1 ==> (r matches Ok(m) && m@ == "sim card deleted successfully"@),
        rows_affected < 1 ==> (r matches Err(e) && is_error(
            e,
            BAD_REQUEST,
            "SIM card does not exist or does not belong to the request user organization"@,
        )),
{
    if rows_affected < 1 {
        Err(api_error(BAD_REQUEST, "SIM card does not exist or does not belong to the request user organization"))
    } else {
        Ok("sim card deleted successfully".to_string())
    }
}

} // verus!
