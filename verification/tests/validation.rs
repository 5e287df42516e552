use rastercar::error_text::render_violations;
use rastercar::auth::{RegisterOrganization, ResetPassword, SignIn};
use rastercar::common::{accept_payload, EmailAddress, Pagination, Token, ValidatedJson};
use rastercar::sim_card::{CreateSimCardDto, SetSimCardTrackerDto};
use rastercar::tracker::{is_supported_tracker_model, CreateTrackerDto, SetTrackerVehicleDto};
use rastercar::user::{ChangePasswordDto, UpdateUserDto};
use rastercar::validation::{Validate, Violation};
use rastercar::vehicle::{CreateVehicleDto, UpdateVehicleDto};
use rastercar::tracker::UpdateTrackerDto;

fn codes(r: Result<(), rastercar::validation::Violations>) -> Vec<(&'static str, &'static str)> {
    match r {
        Ok(()) => vec![],
        Err(e) => e.violations.iter().map(|v: &Violation| (v.field, v.code)).collect(),
    }
}

#[test]
fn email_payload_uses_html5_rule() {
    assert!(EmailAddress { email: String::from("a@b.com") }.validate().is_ok());
    assert_eq!(codes(EmailAddress { email: String::from("not an email") }.validate()), vec![("email", "email")]);
    assert_eq!(codes(EmailAddress { email: String::from("") }.validate()), vec![("email", "email")]);
}

#[test]
fn token_needs_five_characters() {
    assert!(Token { token: String::from("abcde") }.validate().is_ok());
    assert_eq!(codes(Token { token: String::from("abcd") }.validate()), vec![("token", "length")]);
}

#[test]
fn pagination_ranges() {
    assert!(Pagination::defaults().validate().is_ok());
    assert_eq!(Pagination::defaults().page, 1);
    assert_eq!(Pagination::defaults().page_size, 10);
    assert_eq!(
        codes(Pagination { page: 0, page_size: 101 }.validate()),
        vec![("page", "range"), ("page_size", "range")]
    );
    assert!(Pagination { page: 99999, page_size: 100 }.validate().is_ok());
    assert_eq!(codes(Pagination { page: 100000, page_size: 1 }.validate()), vec![("page", "range")]);
}

#[test]
fn register_organization_rules_in_order() {
    let ok = RegisterOrganization {
        username: String::from("john_doe1"),
        email: String::from("john@doe.com"),
        password: String::from("Abc#1234"),
    };
    assert!(ok.validate().is_ok());
    let bad = RegisterOrganization {
        username: String::from("Jo"),
        email: String::from("john"),
        password: String::from("abc"),
    };
    let e = bad.validate().unwrap_err();
    let got: Vec<(&str, &str, Option<&str>)> = e.violations.iter().map(|v| (v.field, v.code, v.message)).collect();
    assert_eq!(
        got,
        vec![
            ("username", "regex", Some("username must contain only lowercase alphanumeric characters and underscores")),
            ("username", "length", None),
            ("email", "email", None),
            ("password", "length", None),
            ("password", "regex", Some("password must contain a number")),
            ("password", "regex", Some("password must contain a symbol in: #?!@$%^&*-")),
            ("password", "regex", Some("password must contain a uppercase character")),
        ]
    );
}

#[test]
fn reset_password_uses_new_password_wording() {
    let e = ResetPassword { new_password: String::from("ABCDEFG"), password_reset_token: String::new() }
        .validate()
        .unwrap_err();
    let msgs: Vec<Option<&str>> = e.violations.iter().map(|v| v.message).collect();
    assert_eq!(
        msgs,
        vec![
            Some("new password must contain a number"),
            Some("new password must contain a symbol in: #?!@$%^&*-"),
            Some("new password must contain a lowercase character"),
        ]
    );
}

#[test]
fn sign_in_checks_password_length_and_email() {
    assert!(SignIn { password: String::from("12345"), email: String::from("x@y.z") }.validate().is_ok());
    let long = "a".repeat(257);
    assert_eq!(
        codes(SignIn { password: long, email: String::from("x@y.z") }.validate()),
        vec![("password", "length")]
    );
}

#[test]
fn length_counts_characters_not_bytes() {
    // five characters, ten bytes
    assert!(Token { token: String::from("ééééé") }.validate().is_ok());
}

#[test]
fn change_password_rules() {
    let ok = ChangePasswordDto { old_password: String::new(), new_password: String::from("Zz-99999") };
    assert!(ok.validate().is_ok());
    let bad = ChangePasswordDto { old_password: String::new(), new_password: String::from("zz-99999") };
    assert_eq!(codes(bad.validate()), vec![("new_password", "regex")]);
}

#[test]
fn update_user_optional_fields() {
    let none = UpdateUserDto { email: None, username: None, description: None };
    assert!(none.validate().is_ok());
    let bad = UpdateUserDto {
        email: Some(String::from("bad")),
        username: Some(String::from("UPPER_case")),
        description: Some(Some("x".repeat(501))),
    };
    assert_eq!(
        codes(bad.validate()),
        vec![("email", "email"), ("username", "regex"), ("description", "length")]
    );
    let cleared = UpdateUserDto { email: None, username: None, description: Some(None) };
    assert!(cleared.validate().is_ok());
}

#[test]
fn sim_card_payload_rules() {
    let mut dto = CreateSimCardDto {
        ssn: String::new(),
        phone_number: String::new(),
        apn_user: String::new(),
        apn_address: String::new(),
        apn_password: String::new(),
        pin: None,
        pin2: None,
        puk: None,
        puk2: None,
        vehicle_tracker_id: Some(0),
    };
    assert_eq!(codes(dto.validate()), vec![("ssn", "length"), ("vehicle_tracker_id", "range")]);
    dto.ssn = String::from("1");
    dto.vehicle_tracker_id = None;
    assert!(dto.validate().is_ok());
    assert_eq!(codes(SetSimCardTrackerDto { vehicle_tracker_id: None }.validate()), vec![("vehicle_tracker_id", "required")]);
    assert!(SetSimCardTrackerDto { vehicle_tracker_id: Some(None) }.validate().is_ok());
}

#[test]
fn tracker_payload_rules() {
    assert!(is_supported_tracker_model("H02"));
    assert!(!is_supported_tracker_model("h03"));
    let dto = CreateTrackerDto { model: String::from("X"), imei: String::new(), vehicle_id: Some(-1) };
    assert_eq!(
        codes(dto.validate()),
        vec![("model", "model not allowed"), ("imei", "length"), ("vehicle_id", "range")]
    );
    assert!(SetTrackerVehicleDto { vehicle_id: Some(Some(3)) }.validate().is_ok());
    assert_eq!(codes(SetTrackerVehicleDto { vehicle_id: None }.validate()), vec![("vehicle_id", "required")]);
}

#[test]
fn vehicle_plate_and_years() {
    let base = UpdateVehicleDto {
        plate: Some(String::from("ABC1D23")),
        brand: None,
        model: None,
        color: None,
        chassis_number: None,
        additional_info: None,
        model_year: Some(Some(2024)),
        fabrication_year: Some(None),
    };
    assert!(base.validate().is_ok());
    let old_format = UpdateVehicleDto { plate: Some(String::from("abc1234")), ..base.clone() };
    assert!(old_format.validate().is_ok());
    let bad = UpdateVehicleDto {
        plate: Some(String::from("AB12345")),
        model_year: Some(Some(1899)),
        fabrication_year: Some(Some(2101)),
        ..base
    };
    assert_eq!(
        codes(bad.validate()),
        vec![("plate", "regex"), ("model_year", "range"), ("fabrication_year", "range")]
    );
}

#[test]
fn invalid_payloads_are_bad_requests() {
    let r = accept_payload(Token { token: String::from("abc") });
    let (status, err) = r.unwrap_err();
    assert_eq!(status, 400);
    assert_eq!(err.message(), "token: Validation error: length [{}]");
    assert!(ValidatedJson::from_payload(Token { token: String::from("abcdef") }).is_ok());
}

#[test]
fn validation_message_uses_rule_message() {
    let r = accept_payload(ChangePasswordDto { old_password: String::new(), new_password: String::from("Aa#aaaaa") });
    let (_, err) = r.unwrap_err();
    assert_eq!(err.message(), "new_password: password must contain a number");
}

#[test]
fn create_vehicle_rules() {
    let dto = |plate: &str, model_year: Option<i16>, fabrication_year: Option<i16>| CreateVehicleDto {
        photo: None,
        plate: String::from(plate),
        brand: String::from("Fiat"),
        model: String::from("Uno"),
        color: None,
        model_year,
        chassis_number: None,
        fabrication_year,
        additional_info: None,
    };
    assert!(dto("ABC1D23", Some(2010), Some(2009)).validate().is_ok());
    assert!(dto("ABC1234", None, None).validate().is_ok());
    assert_eq!(codes(dto("AB-1234", Some(1800), Some(2200)).validate()), vec![("plate", "regex"), ("model_year", "range"), ("fabrication_year", "range")]);
    assert_eq!(codes(dto("ABC1234", Some(1900), Some(2101)).validate()), vec![("fabrication_year", "range")]);
}

#[test]
fn update_tracker_has_no_rules() {
    assert!(UpdateTrackerDto { imei: None, model: None }.validate().is_ok());
}

#[test]
fn violations_render_one_line_per_field() {
    assert_eq!(render_violations(&vec![]), "");
    let plate = Violation { field: "plate", code: "regex", message: Some("bad plate") };
    let year = Violation { field: "model_year", code: "range", message: None };
    assert_eq!(render_violations(&vec![plate]), "plate: bad plate");
    assert_eq!(render_violations(&vec![year, year]), "model_year: Validation error: range [{}], Validation error: range [{}]");
    let both = render_violations(&vec![plate, year]);
    assert!(both == "plate: bad plate\nmodel_year: Validation error: range [{}]" || both == "model_year: Validation error: range [{}]\nplate: bad plate");
}
