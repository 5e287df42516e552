use rastercar::validation::Validate;
use rastercar::auth::Claims;
use rastercar::user::{OrganizationProfile, UpdateOrganizationDto};
use rastercar::vehicle::{undo_vehicle_creation, VehiclePhotoFailure};
use rastercar::auth::reset_password_claims_at;
use rastercar::jwt::{decode, encode};
use rastercar::permission::{check_organization_access, check_permissions, Permission};
use rastercar::sim_card::check_sim_card_unique;
use rastercar::tracker::check_imei_unique;
use rastercar::vehicle::check_plate_unique;
use rastercar::multipart::upload_filename_at;
use rastercar::responses::Timestamp;
use rastercar::access_level::{
    access_level_deletion_response, check_access_level_change, check_access_level_unused,
    decide_user_access_level_change, AccessLevelChange,
};
use rastercar::common::{search_pattern, OrganizationId};
use rastercar::database::{set_if_some, ActiveValue, DbError, DbErrorKind};
use rastercar::mailer::{confirm_email_address_email, recover_password_email, template_path, ConfirmEmailRecipientType, ConfirmEmailReplacements, RecoverPasswordReplacements};
use rastercar::multipart::{filename_from_img, get_image_extension_from_field_or_fail_request, image_filename, UploadedFile};
use rastercar::s3::S3Key;
use rastercar::rabbitmq::{check_connection, panic_on_err, ConnectionCheck};
use rastercar::responses::{internal_error_msg, internal_error_res, SimpleError};
use rastercar::sim_card::{check_tracker_for_new_sim_card, decide_sim_card_tracker, sim_card_deletion_response, SimCardTrackerOutcome, UpdateSimCardDto};
use rastercar::tracker::{check_tracker_vehicle, check_vehicle_for_new_tracker, sim_card_slots, tracker_deletion_response, DeleteTrackerDto, TrackerModel, UpdateTrackerDto};
use rastercar::user::{check_org_update, profile_picture_key, profile_picture_removal_message, user_folder, UpdateUserDto, UserProfile};
use rastercar::vehicle::{vehicle_folder, vehicle_photo_key, UpdateVehicleDto};

fn file(name: Option<String>) -> UploadedFile {
    UploadedFile { file_name: name, contents: vec![1, 2, 3] }
}

fn err(r: Result<impl std::fmt::Debug, (u16, SimpleError)>) -> (u16, String) {
    let (s, e) = r.unwrap_err();
    (s, String::from(e.message()))
}

#[test]
fn simple_errors_carry_message_and_time() {
    let e = SimpleError::from_message("boom");
    assert_eq!(e.message(), "boom");
    assert!(e.timestamp().secs > 1_600_000_000);
    assert_eq!(SimpleError::internal().message(), "internal server error");
    assert_eq!(internal_error_res().0, 500);
    let (s, e) = internal_error_msg("failed");
    assert_eq!((s, e.message()), (500, "failed"));
}

#[test]
fn db_errors_become_responses() {
    let (s, e) = DbError(DbErrorKind::RecordNotFound).into_response();
    assert_eq!((s, e.message()), (404, "entity not found"));
    let (s, e) = DbError(DbErrorKind::Driver).into_response();
    assert_eq!((s, e.message()), (500, "internal server error"));
    let (s, _) = DbError(DbErrorKind::Database { has_code: true }).into_response();
    assert_eq!(s, 500);
    let (s, e) = DbError(DbErrorKind::Database { has_code: false }).into_response();
    assert_eq!((s, e.message()), (500, "internal server error"));
}

#[test]
fn organization_id_requires_org_bound_user() {
    assert_eq!(OrganizationId::from_request_user(Some(Some(4))).unwrap(), OrganizationId(4));
    assert_eq!(err(OrganizationId::from_request_user(Some(None))), (400, String::from("route only accessible to organization bound users")));
    assert_eq!(err(OrganizationId::from_request_user(None)).0, 400);
}

#[test]
fn search_patterns_wrap_text() {
    assert_eq!(search_pattern(&Some(String::from("abc"))), Some(String::from("%abc%")));
    assert_eq!(search_pattern(&Some(String::new())), None);
    assert_eq!(search_pattern(&None), None);
}

#[test]
fn set_if_some_sets_only_given_values() {
    assert_eq!(set_if_some(Some(3)), ActiveValue::SetTo(3));
    assert_eq!(set_if_some::<i32>(None), ActiveValue::NotSet);
    assert_eq!(set_if_some(Some(None::<String>)), ActiveValue::SetTo(None));
    let c = UpdateSimCardDto {
        ssn: Some(String::from("1")),
        phone_number: None,
        apn_user: None,
        apn_address: None,
        apn_password: None,
        pin: Some(None),
        pin2: None,
        puk: None,
        puk2: None,
    }
    .into_changes();
    assert_eq!(c.ssn, ActiveValue::SetTo(String::from("1")));
    assert_eq!(c.phone_number, ActiveValue::NotSet);
    assert_eq!(c.pin, ActiveValue::SetTo(None));
    let v = UpdateVehicleDto {
        plate: None,
        brand: Some(Some(String::from("Fiat"))),
        model: None,
        color: Some(None),
        chassis_number: None,
        additional_info: None,
        model_year: Some(Some(2020)),
        fabrication_year: None,
    }
    .into_changes();
    assert_eq!(v.brand, ActiveValue::SetTo(Some(String::from("Fiat"))));
    assert_eq!(v.color, ActiveValue::SetTo(None));
    assert_eq!(v.model_year, ActiveValue::SetTo(Some(2020)));
    assert_eq!(v.plate, ActiveValue::NotSet);
}

#[test]
fn new_sim_card_needs_a_free_slot() {
    assert_eq!(err(check_tracker_for_new_sim_card(5, 2, None, 0)), (400, String::from("vehicle_tracker: 5 not found for org 2")));
    assert_eq!(
        err(check_tracker_for_new_sim_card(5, 2, Some(1), 1)),
        (400, String::from("vehicle_tracker: 5 does not have a empty SIM card slot"))
    );
    assert!(check_tracker_for_new_sim_card(5, 2, Some(2), 1).is_ok());
}

#[test]
fn sim_card_tracker_decisions() {
    assert!(matches!(decide_sim_card_tracker(7, Some(3), None, None, 0), Ok(SimCardTrackerOutcome::Update(None))));
    assert_eq!(err(decide_sim_card_tracker(7, None, Some(3), None, 0)), (404, String::from("tracker not found")));
    match decide_sim_card_tracker(7, Some(3), Some(3), Some(1), 1) {
        Ok(SimCardTrackerOutcome::Unchanged(m)) => assert_eq!(m, "sim card is already associated with tracker: 3"),
        _ => panic!("expected unchanged"),
    }
    assert_eq!(
        err(decide_sim_card_tracker(7, None, Some(3), Some(1), 1)),
        (400, String::from("associating the sim card with the tracker would overflow the SIM slots for the tracker model"))
    );
    assert!(matches!(decide_sim_card_tracker(7, None, Some(3), Some(2), 1), Ok(SimCardTrackerOutcome::Update(Some(3)))));
    assert_eq!(err(decide_sim_card_tracker(7, Some(2), Some(3), Some(2), 0)), (400, String::from("sim card 7 is already has a tracker")));
}

#[test]
fn deletions_report_missing_rows() {
    assert_eq!(sim_card_deletion_response(1).unwrap(), "sim card deleted successfully");
    assert_eq!(err(sim_card_deletion_response(0)).0, 400);
    assert_eq!(tracker_deletion_response(2).unwrap(), "tracker deleted successfully");
    assert_eq!(
        err(tracker_deletion_response(0)),
        (400, String::from("tracker does not exist or does not belong to the request user organization"))
    );
    assert_eq!(access_level_deletion_response(1).unwrap(), "Access level deleted successfully");
    assert_eq!(err(access_level_deletion_response(0)).0, 400);
    assert!(DeleteTrackerDto { delete_associated_sim_cards: Some(true) }.deletes_sim_cards());
    assert!(!DeleteTrackerDto { delete_associated_sim_cards: None }.deletes_sim_cards());
}

#[test]
fn tracker_installation_decisions() {
    assert_eq!(err(check_vehicle_for_new_tracker(9, 1, 0, 0)), (400, String::from("vehicle: 9 not found for org 1")));
    assert_eq!(err(check_vehicle_for_new_tracker(9, 1, 1, 1)), (400, String::from("vehicle: 9 already has a tracker installed")));
    assert!(check_vehicle_for_new_tracker(9, 1, 1, 0).is_ok());
    assert_eq!(err(check_tracker_vehicle(4, None, 9, false, 0)), (404, String::from("vehicle not found")));
    assert_eq!(err(check_tracker_vehicle(4, Some(8), 9, true, 0)), (400, String::from("tracker 4 is already has a vehicle")));
    assert_eq!(err(check_tracker_vehicle(4, None, 9, true, 1)), (400, String::from("vehicle: 9 already has a tracker")));
    assert!(check_tracker_vehicle(4, None, 9, true, 0).is_ok());
}

#[test]
fn access_level_protections() {
    assert_eq!(
        err(check_access_level_change(AccessLevelChange::Update, 3, 3, Some(false))),
        (403, String::from("cannot update your own access level"))
    );
    assert_eq!(
        err(check_access_level_change(AccessLevelChange::Delete, 3, 3, Some(false))),
        (403, String::from("cannot delete your own access level"))
    );
    assert_eq!(err(check_access_level_change(AccessLevelChange::Update, 3, 4, None)), (404, String::from("entity not found")));
    assert_eq!(
        err(check_access_level_change(AccessLevelChange::Update, 3, 4, Some(true))),
        (403, String::from("cannot change fixed access levels"))
    );
    assert_eq!(
        err(check_access_level_change(AccessLevelChange::Delete, 3, 4, Some(true))),
        (403, String::from("cannot delete a fixed access level"))
    );
    assert!(check_access_level_change(AccessLevelChange::Delete, 3, 4, Some(false)).is_ok());
    assert_eq!(err(check_access_level_unused(2)), (403, String::from("cannot delete access level with associated users")));
    assert!(check_access_level_unused(0).is_ok());
}

#[test]
fn user_access_level_change_decisions() {
    assert_eq!(err(decide_user_access_level_change(1, 1, Some(2), Some(3))), (403, String::from("cannot change your own access level")));
    assert_eq!(err(decide_user_access_level_change(1, 2, None, Some(3))), (404, String::from("user not found")));
    assert_eq!(err(decide_user_access_level_change(1, 2, Some(2), None)), (404, String::from("new access level not found")));
    assert_eq!(decide_user_access_level_change(1, 2, Some(2), Some(3)).unwrap(), true);
    assert_eq!(decide_user_access_level_change(1, 2, Some(3), Some(3)).unwrap(), false);
}

#[test]
fn profile_update_applies_given_fields() {
    let p = UserProfile { username: String::from("a"), email: String::from("a@a.a"), description: Some(String::from("d")) };
    let q = p.apply(UpdateUserDto { email: None, username: Some(String::from("b")), description: Some(None) });
    assert_eq!(q.username, "b");
    assert_eq!(q.email, "a@a.a");
    assert_eq!(q.description, None);
}

#[test]
fn storage_folders() {
    assert_eq!(user_folder(2, Some(1)), "organization/1/user/2");
    assert_eq!(user_folder(2, None), "user/2");
    assert_eq!(vehicle_folder(1, 7), "organization/1/vehicle/7");
    assert_eq!(profile_picture_removal_message(true), "profile picture removed successfully");
    assert_eq!(profile_picture_removal_message(false), "user does not have a profile picture to remove");
    assert_eq!(err(check_org_update(false)), (400, String::from("cannot update org because user does not belong to one")));
}

#[test]
fn image_extensions() {
    assert_eq!(get_image_extension_from_field_or_fail_request(&file(Some(String::from("me.photo.JPG.png")))).unwrap(), "png");
    assert_eq!(err(get_image_extension_from_field_or_fail_request(&file(None))), (400, String::from("empty filename")));
    assert_eq!(err(get_image_extension_from_field_or_fail_request(&file(Some(String::from("photo"))))), (400, String::from("empty file extension")));
    assert_eq!(err(get_image_extension_from_field_or_fail_request(&file(Some(String::from("photo.gif"))))), (400, String::from("invalid file extension")));
    assert_eq!(err(get_image_extension_from_field_or_fail_request(&file(Some(String::from("photo."))))), (400, String::from("invalid file extension")));
    for ext in ["jpe", "jpg", "jpeg", "png", "webp"] {
        assert_eq!(get_image_extension_from_field_or_fail_request(&file(Some(format!("x.{ext}")))).unwrap(), ext);
    }
}

#[test]
fn image_filenames_keep_extension() {
    assert_eq!(image_filename("photo", "02-10-2023_10:20:59", "jpeg"), "photo_02-10-2023_10:20:59.jpeg");
    let f = filename_from_img("profile-picture", &file(Some(String::from("me.webp")))).unwrap();
    assert!(f.starts_with("profile-picture_"));
    assert!(f.ends_with(".webp"));
    assert_eq!(f.len(), "profile-picture_".len() + "dd-mm-yyyy_hh:mm:ss".len() + ".webp".len());
    assert_eq!(err(filename_from_img("photo", &file(Some(String::from("x.exe"))))).1, "invalid file extension");
}

#[test]
fn mailer_contents() {
    assert_eq!(template_path("confirm-email"), "templates/confirm-email.hbs");
    let r = recover_password_email("tok");
    assert_eq!(r.link_path, "auth/change-password");
    assert_eq!(r.link_query, "token=tok");
    assert_eq!(r.subject, "Rastercar: recover password");
    let (c, title) = confirm_email_address_email("t1", ConfirmEmailRecipientType::User);
    assert_eq!(c.link_query, "token=t1");
    assert_eq!(title, "Thanks for registering a Rastercar account");
    let (c, title) = confirm_email_address_email("t2", ConfirmEmailRecipientType::Organization);
    assert_eq!(c.link_query, "token=t2&confirmingFor=organization");
    assert_eq!(title, "Thanks for creating your rastercar organization");
    let p = RecoverPasswordReplacements { username: String::from("u"), reset_password_link: String::from("l") }.into_pairs();
    assert_eq!(p, vec![(String::from("username"), String::from("u")), (String::from("resetPasswordLink"), String::from("l"))]);
    let p = ConfirmEmailReplacements { title: String::from("t"), confirmation_link: String::from("l") }.into_pairs();
    assert_eq!(p, vec![(String::from("title"), String::from("t")), (String::from("confirmationLink"), String::from("l"))]);
}

#[test]
fn broker_rules() {
    panic_on_err::<(), ()>(Ok(()));
    assert_eq!(check_connection(Some(true)), ConnectionCheck::KeepConnection);
    assert_eq!(check_connection(Some(false)), ConnectionCheck::Reconnect);
    assert_eq!(check_connection(None), ConnectionCheck::Reconnect);
}

#[test]
fn tracker_models_have_sim_card_slots() {
    assert_eq!(sim_card_slots("H02"), Some(1));
    assert_eq!(sim_card_slots("h02"), None);
    assert_eq!(sim_card_slots(""), None);
}

#[test]
fn storage_keys() {
    let k = S3Key { folder: String::from("user/3"), filename: String::from("a.png") };
    assert_eq!(k.key(), "user/3/a.png");
    let v = vehicle_photo_key(2, 9, &file(Some(String::from("car.jpg")))).unwrap();
    assert_eq!(v.folder, "organization/2/vehicle/9");
    assert!(v.filename.starts_with("photo_") && v.filename.ends_with(".jpg"));
    assert!(v.key().starts_with("organization/2/vehicle/9/photo_"));
    assert_eq!(err(vehicle_photo_key(2, 9, &file(None))), (400, String::from("empty filename")));
    let p = profile_picture_key(5, None, &file(Some(String::from("me.png")))).unwrap();
    assert_eq!(p.folder, "user/5");
    assert!(p.filename.starts_with("profile-picture_") && p.filename.ends_with(".png"));
    let q = profile_picture_key(5, Some(4), &file(Some(String::from("me.webp")))).unwrap();
    assert_eq!(q.folder, "organization/4/user/5");
    assert_eq!(err(profile_picture_key(5, None, &file(Some(String::from("me.bmp"))))), (400, String::from("invalid file extension")));
}

#[test]
fn tracker_models_and_updates() {
    assert_eq!(TrackerModel::from_name("H02"), Some(TrackerModel::H02));
    assert_eq!(TrackerModel::from_name("X9"), None);
    assert_eq!(TrackerModel::H02.name(), "H02");
    let c = UpdateTrackerDto { imei: Some(String::from("123")), model: Some(TrackerModel::H02) }.into_changes();
    assert_eq!(c.imei, ActiveValue::SetTo(String::from("123")));
    assert_eq!(c.model, ActiveValue::SetTo(String::from("H02")));
    let c = UpdateTrackerDto { imei: None, model: None }.into_changes();
    assert_eq!(c.imei, ActiveValue::NotSet);
    assert_eq!(c.model, ActiveValue::NotSet);
}

#[test]
fn tokens_read_back_their_claims() {
    let now = chrono::Utc::now().timestamp();
    let claims = reset_password_claims_at(42, now);
    let token = encode(&claims, b"secret").unwrap();
    let read = decode(&token, b"secret").unwrap();
    assert_eq!((read.aud.as_str(), read.iat, read.iss.as_str(), read.sub.as_str(), read.exp), ("user:42", claims.iat, "rastercar API", "restore password token", claims.exp));
    assert_eq!(err(decode(&token, b"other secret")), (401, String::from("invalid token")));
    assert_eq!(err(decode("not a token", b"secret")), (401, String::from("invalid token")));
    let expired = reset_password_claims_at(42, now - 10_000);
    let old = encode(&expired, b"secret").unwrap();
    assert_eq!(err(decode(&old, b"secret")), (401, String::from("invalid token")));
}

#[test]
fn permissions_and_blocked_organizations() {
    let granted = vec![String::from("CREATE_TRACKER"), String::from("UPDATE_TRACKER")];
    assert!(check_permissions(&granted, &vec![Permission::CreateTracker, Permission::UpdateTracker]).is_ok());
    assert!(check_permissions(&granted, &vec![]).is_ok());
    assert_eq!(err(check_permissions(&granted, &vec![Permission::DeleteTracker])), (403, String::from("MISSING_PERMISSIONS")));
    assert!(check_organization_access(None).is_ok());
    assert!(check_organization_access(Some(false)).is_ok());
    assert_eq!(err(check_organization_access(Some(true))), (401, String::from("ORGANIZATION_BLOCKED")));
}

#[test]
fn values_already_in_use_are_refused() {
    assert!(check_sim_card_unique(false, false).is_ok());
    assert_eq!(err(check_sim_card_unique(true, true)), (400, String::from("SSN_IN_USE")));
    assert_eq!(err(check_sim_card_unique(false, true)), (400, String::from("PHONE_NUMBER_IN_USE")));
    assert!(check_imei_unique(false).is_ok());
    assert_eq!(err(check_imei_unique(true)), (400, String::from("IMEI_IN_USE")));
    assert!(check_plate_unique(false).is_ok());
    assert_eq!(err(check_plate_unique(true)), (400, String::from("PLATE_IN_USE")));
}

#[test]
fn upload_names_at_a_given_time() {
    // 2023-10-02 10:20:59 UTC
    let f = upload_filename_at("photo", &file(Some(String::from("car.jpeg"))), 1_696_242_059).unwrap();
    assert_eq!(f, "photo_02-10-2023_10:20:59.jpeg");
    assert_eq!(err(upload_filename_at("photo", &file(Some(String::from("car.bmp"))), 0)), (400, String::from("invalid file extension")));
    assert_eq!(err(upload_filename_at("photo", &file(Some(String::from("car.png"))), i64::MAX)), (500, String::from("internal server error")));
}

#[test]
fn chrono_range_bounds() {
    assert!(chrono::DateTime::from_timestamp(8_210_266_876_799, 0).is_some());
    assert!(chrono::DateTime::from_timestamp(8_210_266_876_800, 0).is_none());
    assert!(chrono::DateTime::from_timestamp(-8_334_601_228_800, 0).is_some());
    assert!(chrono::DateTime::from_timestamp(-8_334_601_228_801, 0).is_none());
}

#[test]
fn errors_carry_their_timestamp() {
    let t = Timestamp { secs: 1_700_000_000, nanos: 5 };
    let e = SimpleError::with_timestamp(String::from("x"), t);
    assert_eq!((e.message(), e.timestamp()), ("x", t));
}

fn base64url_decode(s: &str) -> Vec<u8> {
    let alphabet = "ABCDEFGHIJKLMNOPQRSTUVWXYZabcdefghijklmnopqrstuvwxyz0123456789-_";
    let mut bits: u32 = 0;
    let mut n = 0;
    let mut out = Vec::new();
    for c in s.chars() {
        bits = (bits << 6) | alphabet.find(c).unwrap() as u32;
        n += 6;
        if n >= 8 {
            n -= 8;
            out.push((bits >> n) as u8);
            bits &= (1 << n) - 1;
        }
    }
    out
}

#[test]
fn token_payload_keeps_field_order() {
    let claims = Claims {
        aud: String::from("a"),
        iat: 5,
        iss: String::from("i"),
        sub: String::from("s"),
        exp: None,
    };
    let token = encode(&claims, b"k").unwrap();
    let payload = token.split('.').nth(1).unwrap();
    assert_eq!(String::from_utf8(base64url_decode(payload)).unwrap(), r#"{"aud":"a","iat":5,"iss":"i","sub":"s"}"#);
    let with_exp = Claims { exp: Some(9), ..claims };
    let token = encode(&with_exp, b"k").unwrap();
    let payload = token.split('.').nth(1).unwrap();
    assert_eq!(String::from_utf8(base64url_decode(payload)).unwrap(), r#"{"aud":"a","iat":5,"iss":"i","sub":"s","exp":9}"#);
}

#[test]
fn failed_vehicle_photos_undo_the_creation() {
    let u = undo_vehicle_creation(VehiclePhotoFailure::Upload);
    assert!(u.delete_vehicle && !u.delete_uploaded_photo);
    assert_eq!((u.response.0, u.response.1.message()), (500, "failed to upload vehicle photo"));
    let u = undo_vehicle_creation(VehiclePhotoFailure::SetPhoto);
    assert!(u.delete_vehicle && u.delete_uploaded_photo);
    assert_eq!((u.response.0, u.response.1.message()), (500, "failed to set vehicle photo"));
    let refused = vehicle_photo_key(1, 2, &file(None)).unwrap_err();
    let u = undo_vehicle_creation(VehiclePhotoFailure::Rejected(refused));
    assert!(u.delete_vehicle && !u.delete_uploaded_photo);
    assert_eq!((u.response.0, u.response.1.message()), (400, "empty filename"));
}

#[test]
fn organization_updates() {
    let org = OrganizationProfile { name: String::from("acme"), billing_email: String::from("a@b.com") };
    let p = org.clone().apply(UpdateOrganizationDto { name: Some(String::from("acme2")), billing_email: None });
    assert_eq!((p.name.as_str(), p.billing_email.as_str()), ("acme2", "a@b.com"));
    let p = org.apply(UpdateOrganizationDto { name: None, billing_email: Some(String::from("x@y.com")) });
    assert_eq!((p.name.as_str(), p.billing_email.as_str()), ("acme", "x@y.com"));
    assert!(UpdateOrganizationDto { name: None, billing_email: Some(String::from("x@y.com")) }.validate().is_ok());
    assert!(UpdateOrganizationDto { name: None, billing_email: Some(String::from("nope")) }.validate().is_err());
}
