//! Trackers: payloads and the rules for creating trackers, installing them
//! in vehicles and deleting them.

use vstd::prelude::*;
use crate::database::{set_if_some, ActiveValue};
use crate::error_codes::IMEI_IN_USE;
use crate::responses::{api_error, api_error_string, internal_error_res, is_error, ApiError, BAD_REQUEST, INTERNAL_SERVER_ERROR, NOT_FOUND};
use crate::text::{decimal, text_with_int, text_with_ints};
use crate::validation::{check_length, length_ok, range_ok, rule, Collector, Validate, Violations, ViolationView};

verus! {

/// Names of the tracker models the API supports.
pub open spec fn supported_models() -> Seq<Seq<char>> {
    seq!["H02"@]
}

/// Whether `model` names a supported tracker model.
pub fn is_supported_tracker_model(model: &str) -> (r: bool)
    ensures
        r == supported_models().contains(model@),
{
    let known = "H02".to_string();
    let given = model.to_string();
    let r = given == known;
    proof {
        if r {
            assert(supported_models()[0] == model@);
        } else {
            assert forall|i: int| 0 <= i < supported_models().len() implies supported_models()[i] != model@ by {}
        }
    }
    r
}

/// SIM card slots of a tracker model; `None` for a model the API does not know.
pub open spec fn model_sim_card_slots(model: Seq<char>) -> Option<u8> {
    if model == "H02"@ {
        Some(1u8)
    } else {
        None
    }
}

/// How many SIM cards a tracker of `model` holds.
pub fn sim_card_slots(model: &str) -> (r: Option<u8>)
    ensures
        r == model_sim_card_slots(model@),
        r is Some <==> supported_models().contains(model@),
{
    proof {
        reveal_strlit("H02");
    }
    if is_supported_tracker_model(model) {
        proof {
            assert(model@ == "H02"@) by {
                let i = choose|i: int| 0 <= i < supported_models().len() && supported_models()[i] == model@;
                assert(i == 0);
            }
        }
        Some(1u8)
    } else {
        proof {
            assert(supported_models()[0] == "H02"@);
        }
        None
    }
}

/// Payload to create a tracker.
#[derive(Clone, Debug)]
pub struct CreateTrackerDto {
    pub model: String,
    pub imei: String,
    /// Vehicle to install the tracker in.
    pub vehicle_id: Option<i32>,
}

impl Validate for CreateTrackerDto {
    open spec fn violations(&self) -> Seq<ViolationView> {
        rule(supported_models().contains(self.model@), "model", "model not allowed", None)
            + rule(length_ok(self.imei@, Some(1), None), "imei", "length", None)
            + match self.vehicle_id {
                Some(id) => rule(range_ok(id as int, Some(1), None), "vehicle_id", "range", None),
                None => Seq::<ViolationView>::empty(),
            }
    }

    fn validate(&self) -> (r: Result<(), Violations>) {
        let mut c = Collector::new();
        c.check(is_supported_tracker_model(self.model.as_str()), "model", "model not allowed", None);
        c.check(check_length(self.imei.as_str(), Some(1), None), "imei", "length", None);
        match self.vehicle_id {
            Some(id) => c.check(id >= 1, "vehicle_id", "range", None),
            None => {
                assert(c.seen() =~= c.seen() + Seq::<ViolationView>::empty());
            },
        }
        c.finish()
    }
}

/// The tracker models the API supports.
#[derive(Clone, Copy, Debug, PartialEq, Eq)]
pub enum TrackerModel {
    H02,
}

impl TrackerModel {
    pub open spec fn spec_name(self) -> Seq<char> {
        match self {
            TrackerModel::H02 => "H02"@,
        }
    }

    /// The model's name, as stored and sent.
    pub fn name(&self) -> (n: String)
        ensures
            n@ == self.spec_name(),
            supported_models().contains(n@),
    {
        proof {
            reveal_strlit("H02");
            assert(supported_models()[0] == "H02"@);
        }
        match self {
            TrackerModel::H02 => "H02".to_string(),
        }
    }

    /// The model with the name `name`, if the API supports one.
    pub fn from_name(name: &str) -> (m: Option<TrackerModel>)
        ensures
            m is Some <==> supported_models().contains(name@),
            m matches Some(model) ==> model.spec_name() == name@,
    {
        if is_supported_tracker_model(name) {
            proof {
                reveal_strlit("H02");
                let i = choose|i: int| 0 <= i < supported_models().len() && supported_models()[i] == name@;
                assert(i == 0);
            }
            Some(TrackerModel::H02)
        } else {
            None
        }
    }
}

/// Payload to update a tracker: absent fields are left as they are.
#[derive(Clone, Debug)]
pub struct UpdateTrackerDto {
    pub imei: Option<String>,
    pub model: Option<TrackerModel>,
}

impl Validate for UpdateTrackerDto {
    open spec fn violations(&self) -> Seq<ViolationView> {
        Seq::<ViolationView>::empty()
    }

    fn validate(&self) -> (r: Result<(), Violations>) {
        Collector::new().finish()
    }
}

/// The column changes of a tracker update.
pub struct TrackerChanges {
    pub imei: ActiveValue<String>,
    pub model: ActiveValue<String>,
}

impl UpdateTrackerDto {
    /// Each given field is set, each absent one left unchanged.
    pub fn into_changes(self) -> (c: TrackerChanges)
        ensures
            c.imei == set_if_some(self.imei),
            match self.model {
                Some(m) => c.model matches ActiveValue::SetTo(n) && n@ == m.spec_name(),
                None => c.model is NotSet,
            },
    {
        let model = match self.model {
            Some(m) => ActiveValue::SetTo(m.name()),
            None => ActiveValue::NotSet,
        };
        TrackerChanges { imei: set_if_some(self.imei), model }
    }
}

/// Refuses a new tracker whose IMEI another tracker of the organization
/// already has.
pub fn check_imei_unique(imei_in_use: bool) -> (r: Result<(), ApiError>)
    ensures
        imei_in_use <==> r is Err,
        r matches Err(e) ==> is_error(e, BAD_REQUEST, IMEI_IN_USE@),
{
    if imei_in_use { Err(api_error(BAD_REQUEST, IMEI_IN_USE)) } else { Ok(()) }
}

/// Filters of a tracker listing.
#[derive(Clone, Debug)]
pub struct ListTrackersDto {
    /// Search by IMEI.
    pub imei: Option<String>,
    /// Only trackers with (or without) a vehicle; `None` means any.
    pub with_associated_vehicle: Option<bool>,
}

impl Validate for ListTrackersDto {
    open spec fn violations(&self) -> Seq<ViolationView> {
        Seq::<ViolationView>::empty()
    }

    fn validate(&self) -> (r: Result<(), Violations>) {
        Collector::new().finish()
    }
}

/// Payload to set (`Some(Some(id))`) or clear (`Some(None)`) the vehicle
/// of a tracker; the key is required.
#[derive(Clone, Debug)]
pub struct SetTrackerVehicleDto {
    pub vehicle_id: Option<Option<i32>>,
}

impl Validate for SetTrackerVehicleDto {
    open spec fn violations(&self) -> Seq<ViolationView> {
        rule(self.vehicle_id is Some, "vehicle_id", "required", None)
    }

    fn validate(&self) -> (r: Result<(), Violations>) {
        let mut c = Collector::new();
        c.check(self.vehicle_id.is_some(), "vehicle_id", "required", None);
        c.finish()
    }
}

/// Options of a tracker deletion.
#[derive(Clone, Debug)]
pub struct DeleteTrackerDto {
    /// Whether the SIM cards of the tracker are deleted as well.
    pub delete_associated_sim_cards: Option<bool>,
}

impl Validate for DeleteTrackerDto {
    open spec fn violations(&self) -> Seq<ViolationView> {
        Seq::<ViolationView>::empty()
    }

    fn validate(&self) -> (r: Result<(), Violations>) {
        Collector::new().finish()
    }
}

impl DeleteTrackerDto {
    /// Whether the tracker's SIM cards go too; by default they stay.
    pub fn deletes_sim_cards(&self) -> (b: bool)
        ensures
            b == (self.delete_associated_sim_cards == Some(true)),
    {
        match self.delete_associated_sim_cards {
            Some(b) => b,
            None => false,
        }
    }
}

/// Checks the vehicle a new tracker goes into: it must exist in the
/// organization (`vehicles_found` counts the vehicles with its id there)
/// and have no tracker yet (`trackers_on_vehicle`).
pub fn check_vehicle_for_new_tracker(
    vehicle_id: i32,
    org_id: i32,
    vehicles_found: i64,
    trackers_on_vehicle: i64,
) -> (r: Result<(), ApiError>)
    ensures
        vehicles_found < 1 ==> (r matches Err(e) && is_error(
            e,
            BAD_REQUEST,
            "vehicle: "@ + decimal(vehicle_id as int) + " not found for org "@ + decimal(org_id as int),
        )),
        vehicles_found >= 1 && trackers_on_vehicle > 0 ==> (r matches Err(e) && is_error(
            e,
            BAD_REQUEST,
            "vehicle: "@ + decimal(vehicle_id as int) + " already has a tracker installed"@,
        )),
        vehicles_found >= 1 && trackers_on_vehicle <= 0 ==> r is Ok,
{
    proof {
        reveal_strlit("");
    }
    if vehicles_found < 1 {
        return Err(api_error_string(
            BAD_REQUEST,
            text_with_ints("vehicle: ", vehicle_id as i64, " not found for org ", org_id as i64, ""),
        ));
    }
    if trackers_on_vehicle > 0 {
        return Err(api_error_string(
            BAD_REQUEST,
            text_with_int("vehicle: ", vehicle_id as i64, " already has a tracker installed"),
        ));
    }
    Ok(())
}

/// The vehicle choice of a validated payload; a payload without it is an
/// internal error (validation requires it).
pub fn vehicle_choice(payload: &SetTrackerVehicleDto) -> (r: Result<Option<i32>, ApiError>)
    ensures
        match payload.vehicle_id {
            Some(choice) => r == Ok::<Option<i32>, ApiError>(choice),
            None => r matches Err(e) && is_error(e, INTERNAL_SERVER_ERROR, "internal server error"@),
        },
{
    match payload.vehicle_id {
        Some(choice) => Ok(choice),
        None => Err(internal_error_res()),
    }
}

/// Checks the installation of tracker `tracker_id` (whose current vehicle
/// is `tracker_vehicle`) in vehicle `vehicle_id`: the vehicle must exist in
/// the organization, the tracker must not be installed anywhere and the
/// vehicle must have no tracker (`trackers_on_vehicle`).
pub fn check_tracker_vehicle(
    tracker_id: i32,
    tracker_vehicle: Option<i32>,
    vehicle_id: i32,
    vehicle_found: bool,
    trackers_on_vehicle: i64,
) -> (r: Result<(), ApiError>)
    ensures
        !vehicle_found ==> (r matches Err(e) && is_error(e, NOT_FOUND, "vehicle not found"@)),
        vehicle_found && tracker_vehicle is Some ==> (r matches Err(e) && is_error(
            e,
            BAD_REQUEST,
            "tracker "@ + decimal(tracker_id as int) + " is already has a vehicle"@,
        )),
        vehicle_found && tracker_vehicle is None && trackers_on_vehicle > 0 ==> (r matches Err(e)
            && is_error(
            e,
            BAD_REQUEST,
            "vehicle: "@ + decimal(vehicle_id as int) + " already has a tracker"@,
        )),
        vehicle_found && tracker_vehicle is None && trackers_on_vehicle <= 0 ==> r is Ok,
{
    if !vehicle_found {
        return Err(api_error(NOT_FOUND, "vehicle not found"));
    }
    if tracker_vehicle.is_some() {
        return Err(api_error_string(
            BAD_REQUEST,
            text_with_int("tracker ", tracker_id as i64, " is already has a vehicle"),
        ));
    }
    if trackers_on_vehicle > 0 {
        return Err(api_error_string(
            BAD_REQUEST,
            text_with_int("vehicle: ", vehicle_id as i64, " already has a tracker"),
        ));
    }
    Ok(())
}

/// The answer to a tracker deletion: an error when no row was deleted.
pub fn tracker_deletion_response(rows_affected: u64) -> (r: Result<String, ApiError>)
    ensures
        rows_affected >= 1 ==> (r matches Ok(m) && m@ == "tracker deleted successfully"@),
        rows_affected < 1 ==> (r matches Err(e) && is_error(
            e,
            BAD_REQUEST,
            "tracker does not exist or does not belong to the request user organization"@,
        )),
{
    if rows_affected < 1 {
        Err(api_error(BAD_REQUEST, "tracker does not exist or does not belong to the request user organization"))
    } else {
        Ok("tracker deleted successfully".to_string())
    }
}

} // verus!
