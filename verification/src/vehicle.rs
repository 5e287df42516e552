//! Vehicles: payloads, column changes and where vehicle photos are stored.

use vstd::prelude::*;
use crate::database::{set_if_some, ActiveValue};
use crate::multipart::{filename_from_img, image_extension_spec, is_upload_name, opt_view, UploadedFile};
use crate::error_codes::PLATE_IN_USE;
use crate::responses::{api_error, internal_error_msg, is_error, ApiError, BAD_REQUEST, INTERNAL_SERVER_ERROR};
use crate::s3::S3Key;
use crate::text::{decimal, text_with_ints};
use crate::validation::{check_vehicle_plate, is_vehicle_plate, range_ok, rule, Collector, Validate, Violations, ViolationView};

verus! {

pub const MSG_PLATE: &'static str = "vehicle plate must be in format AAA#A## or AAA#### (A: a-z, #: 0-9)";

/// Filters of a vehicle listing.
#[derive(Clone, Debug)]
pub struct ListVehiclesDto {
    /// Search by plate.
    pub plate: Option<String>,
}

impl Validate for ListVehiclesDto {
    open spec fn violations(&self) -> Seq<ViolationView> {
        Seq::<ViolationView>::empty()
    }

    fn validate(&self) -> (r: Result<(), Violations>) {
        Collector::new().finish()
    }
}

/// The rule of a model or fabrication year, when one is given.
pub open spec fn year_violations(field: &'static str, year: Option<Option<i16>>) -> Seq<ViolationView> {
    match year {
        Some(Some(y)) => rule(range_ok(y as int, Some(1900), Some(2100)), field, "range", None),
        _ => Seq::<ViolationView>::empty(),
    }
}

fn check_year(c: &mut Collector, field: &'static str, year: Option<Option<i16>>)
    ensures
        final(c).seen() == old(c).seen() + year_violations(field, year),
{
    match year {
        Some(Some(y)) => c.check(1900 <= y && y <= 2100, field, "range", None),
        _ => {
            assert(old(c).seen() =~= old(c).seen() + Seq::<ViolationView>::empty());
        },
    }
}

/// Payload to create a vehicle, sent as a multipart form with an optional
/// photo.
#[derive(Clone, Debug)]
pub struct CreateVehicleDto {
    pub photo: Option<UploadedFile>,
    pub plate: String,
    pub brand: String,
    pub model: String,
    pub color: Option<String>,
    pub model_year: Option<i16>,
    pub chassis_number: Option<String>,
    pub fabrication_year: Option<i16>,
    pub additional_info: Option<String>,
}

impl Validate for CreateVehicleDto {
    open spec fn violations(&self) -> Seq<ViolationView> {
        rule(is_vehicle_plate(self.plate@), "plate", "regex", Some(MSG_PLATE)) + year_violations(
            "model_year",
            Some(self.model_year),
        ) + year_violations("fabrication_year", Some(self.fabrication_year))
    }

    fn validate(&self) -> (r: Result<(), Violations>) {
        let mut c = Collector::new();
        c.check(check_vehicle_plate(self.plate.as_str()), "plate", "regex", Some(MSG_PLATE));
        check_year(&mut c, "model_year", Some(self.model_year));
        check_year(&mut c, "fabrication_year", Some(self.fabrication_year));
        assert(c.seen() =~= self.violations());
        c.finish()
    }
}

/// Refuses a new vehicle whose plate another vehicle of the organization
/// already has.
pub fn check_plate_unique(plate_in_use: bool) -> (r: Result<(), ApiError>)
    ensures
        plate_in_use <==> r is Err,
        r matches Err(e) ==> is_error(e, BAD_REQUEST, PLATE_IN_USE@),
{
    if plate_in_use { Err(api_error(BAD_REQUEST, PLATE_IN_USE)) } else { Ok(()) }
}

/// Payload to update a vehicle: absent fields are left as they are; for
/// the nullable ones, `Some(None)` clears the value.
#[derive(Clone, Debug)]
pub struct UpdateVehicleDto {
    pub plate: Option<String>,
    pub brand: Option<Option<String>>,
    pub model: Option<Option<String>>,
    pub color: Option<Option<String>>,
    pub chassis_number: Option<Option<String>>,
    pub additional_info: Option<Option<String>>,
    pub model_year: Option<Option<i16>>,
    pub fabrication_year: Option<Option<i16>>,
}

impl Validate for UpdateVehicleDto {
    open spec fn violations(&self) -> Seq<ViolationView> {
        (match self.plate {
            Some(p) => rule(is_vehicle_plate(p@), "plate", "regex", Some(MSG_PLATE)),
            None => Seq::<ViolationView>::empty(),
        }) + year_violations("model_year", self.model_year) + year_violations(
            "fabrication_year",
            self.fabrication_year,
        )
    }

    fn validate(&self) -> (r: Result<(), Violations>) {
        let mut c = Collector::new();
        match &self.plate {
            Some(p) => c.check(check_vehicle_plate(p.as_str()), "plate", "regex", Some(MSG_PLATE)),
            None => {},
        }
        check_year(&mut c, "model_year", self.model_year);
        check_year(&mut c, "fabrication_year", self.fabrication_year);
        assert(c.seen() =~= self.violations());
        c.finish()
    }
}

/// The column changes of a vehicle update.
pub struct VehicleChanges {
    pub plate: ActiveValue<String>,
    pub brand: ActiveValue<Option<String>>,
    pub model: ActiveValue<Option<String>>,
    pub color: ActiveValue<Option<String>>,
    pub model_year: ActiveValue<Option<i16>>,
    pub chassis_number: ActiveValue<Option<String>>,
    pub additional_info: ActiveValue<Option<String>>,
    pub fabrication_year: ActiveValue<Option<i16>>,
}

impl UpdateVehicleDto {
    /// Each given field is set, each absent one left unchanged.
    pub fn into_changes(self) -> (c: VehicleChanges)
        ensures
            c.plate == set_if_some(self.plate),
            c.brand == set_if_some(self.brand),
            c.model == set_if_some(self.model),
            c.color == set_if_some(self.color),
            c.model_year == set_if_some(self.model_year),
            c.chassis_number == set_if_some(self.chassis_number),
            c.additional_info == set_if_some(self.additional_info),
            c.fabrication_year == set_if_some(self.fabrication_year),
    {
        VehicleChanges {
            plate: set_if_some(self.plate),
            brand: set_if_some(self.brand),
            model: set_if_some(self.model),
            color: set_if_some(self.color),
            model_year: set_if_some(self.model_year),
            chassis_number: set_if_some(self.chassis_number),
            additional_info: set_if_some(self.additional_info),
            fabrication_year: set_if_some(self.fabrication_year),
        }
    }
}

/// The storage folder of a vehicle's photo.
pub open spec fn vehicle_folder_spec(org_id: int, vehicle_id: int) -> Seq<char> {
    "organization/"@ + decimal(org_id) + "/vehicle/"@ + decimal(vehicle_id)
}

pub fn vehicle_folder(org_id: i32, vehicle_id: i32) -> (f: String)
    ensures
        f@ == vehicle_folder_spec(org_id as int, vehicle_id as int),
{
    proof {
        reveal_strlit("");
    }
    text_with_ints("organization/", org_id as i64, "/vehicle/", vehicle_id as i64, "")
}

/// Where the photo sent with a new vehicle is stored: a `photo_` name in
/// the vehicle's folder. A file that is not an accepted image is refused
/// as the upload check refuses it; an accepted image always gets a key.
pub fn vehicle_photo_key(org_id: i32, vehicle_id: i32, photo: &UploadedFile) -> (r: Result<S3Key, ApiError>)
    ensures
        image_extension_spec(opt_view(&photo.file_name)) matches Err((status, msg)) ==> (r matches Err(e)
            && is_error(e, status, msg)),
        r matches Ok(k) ==> k.folder@ == vehicle_folder_spec(org_id as int, vehicle_id as int)
            && is_upload_name("photo"@, opt_view(&photo.file_name), k.filename@),
        image_extension_spec(opt_view(&photo.file_name)) is Ok ==> r is Ok,
{
    let filename = filename_from_img("photo", photo)?;
    Ok(S3Key { folder: vehicle_folder(org_id, vehicle_id), filename })
}

/// A step of storing the photo of a newly created vehicle that failed.
#[derive(Debug)]
pub enum VehiclePhotoFailure {
    /// The photo was refused with the given answer (see `vehicle_photo_key`).
    Rejected(ApiError),
    /// The photo could not be uploaded.
    Upload,
    /// The uploaded photo could not be recorded on the vehicle.
    SetPhoto,
}

/// What undoes a vehicle creation whose photo could not be stored: a
/// vehicle is never kept without the photo it was sent with.
pub struct CreationUndo {
    /// Delete the uploaded photo.
    pub delete_uploaded_photo: bool,
    /// Delete the created vehicle.
    pub delete_vehicle: bool,
    /// The answer to the request.
    pub response: ApiError,
}

/// Decides how a vehicle creation is undone after `failure`: the vehicle
/// is always deleted, and the photo too once it was uploaded.
pub fn undo_vehicle_creation(failure: VehiclePhotoFailure) -> (u: CreationUndo)
    ensures
        u.delete_vehicle,
        match failure {
            VehiclePhotoFailure::Rejected(e) => !u.delete_uploaded_photo && u.response == e,
            VehiclePhotoFailure::Upload => !u.delete_uploaded_photo && is_error(
                u.response,
                INTERNAL_SERVER_ERROR,
                "failed to upload vehicle photo"@,
            ),
            VehiclePhotoFailure::SetPhoto => u.delete_uploaded_photo && is_error(
                u.response,
                INTERNAL_SERVER_ERROR,
                "failed to set vehicle photo"@,
            ),
        },
{
    match failure {
        VehiclePhotoFailure::Rejected(e) => CreationUndo { delete_uploaded_photo: false, delete_vehicle: true, response: e },
        VehiclePhotoFailure::Upload => CreationUndo {
            delete_uploaded_photo: false,
            delete_vehicle: true,
            response: internal_error_msg("failed to upload vehicle photo"),
        },
        VehiclePhotoFailure::SetPhoto => CreationUndo {
            delete_uploaded_photo: true,
            delete_vehicle: true,
            response: internal_error_msg("failed to set vehicle photo"),
        },
    }
}

} // verus!
