use rastercar::permission::Permission;
use rastercar::auth::{
    change_password, check_credentials, check_sign_up, decide_confirm_email_by_token,
    decide_org_confirmation_request, decide_password_recovery, decide_recover_password_request,
    decide_sign_out_session, decide_user_confirmation_request, hash_new_password,
    organization_audience, org_confirm_email_claims_at, plan_registration, request_session_flags,
    reset_password_claims_at, sign_in_error_response, user_audience, user_confirm_email_claims_at,
    user_id_from_audience, Claims, RegisterOrganization, UserFromCredentialsError,
};
use rastercar::error_codes::{EMAIL_ALREADY_VERIFIED, EMAIL_IN_USE, USERNAME_IN_USE};

#[test]
fn audiences_name_users_and_organizations() {
    assert_eq!(user_audience(15), "user:15");
    assert_eq!(organization_audience(-2), "organization:-2");
}

#[test]
fn user_id_is_read_back_from_audience() {
    assert_eq!(user_id_from_audience(&user_audience(982)), Some(982));
    assert_eq!(user_id_from_audience("user:+12"), Some(12));
    assert_eq!(user_id_from_audience("organization:12"), None);
    assert_eq!(user_id_from_audience("user:"), None);
    assert_eq!(user_id_from_audience("user:1x"), None);
    assert_eq!(user_id_from_audience("usr:1"), None);
}

#[test]
fn default_claims_have_no_expiration() {
    let c = Claims::default();
    assert_eq!(c.aud, "rastercar users");
    assert_eq!(c.iss, "rastercar API");
    assert_eq!(c.sub, "rastercar API token");
    assert!(c.exp.is_none());
}

#[test]
fn set_expiration_in_adds_duration_to_issue_time() {
    let mut c = Claims::issued_at(0);
    c.set_expiration_in(3600);
    assert_eq!(c.exp, Some(c.iat + 3600));
    assert!(c.iat > 1_600_000_000);
}

#[test]
fn token_claims_have_their_validity() {
    let r = reset_password_claims_at(7, 1000);
    assert_eq!(r.aud, "user:7");
    assert_eq!(r.sub, "restore password token");
    assert_eq!(r.iat, 1000);
    assert_eq!(r.exp, Some(1900));
    let u = user_confirm_email_claims_at(7, 1000);
    assert_eq!(u.sub, "confirm email address token");
    assert_eq!(u.exp, Some(1000 + 8 * 3600));
    let o = org_confirm_email_claims_at(3, 50);
    assert_eq!(o.aud, "organization:3");
    assert_eq!(o.exp, Some(50 + 8 * 3600));
}

#[test]
fn credentials_are_checked_against_the_stored_hash() {
    let hash = hash_new_password("Secret#1").unwrap();
    assert_eq!(check_credentials(Some((5, hash.clone())), "Secret#1"), Ok(5));
    assert_eq!(
        check_credentials(Some((5, hash)), "Secret#2"),
        Err(UserFromCredentialsError::InvalidPassword)
    );
}

#[test]
fn credentials_errors() {
    assert_eq!(
        check_credentials::<i32>(None, "whatever"),
        Err(UserFromCredentialsError::NotFound)
    );
    assert_eq!(
        check_credentials(Some((1, String::from("not a bcrypt hash"))), "x"),
        Err(UserFromCredentialsError::InternalError)
    );
}

#[test]
fn sign_in_errors_map_to_statuses() {
    let (s, e) = sign_in_error_response(UserFromCredentialsError::NotFound);
    assert_eq!((s, e.message()), (404, "user not found"));
    let (s, e) = sign_in_error_response(UserFromCredentialsError::InternalError);
    assert_eq!((s, e.message()), (500, "internal server error"));
    let (s, e) = sign_in_error_response(UserFromCredentialsError::InvalidPassword);
    assert_eq!((s, e.message()), (401, "invalid password"));
}

#[test]
fn change_password_needs_the_old_one() {
    let hash = hash_new_password("Old#pass1").unwrap();
    let (s, e) = change_password("wrong", &hash, "New#pass1").unwrap_err();
    assert_eq!((s, e.message()), (401, "invalid password"));
    let (s, e) = change_password("x", "garbage", "New#pass1").unwrap_err();
    assert_eq!((s, e.message()), (500, "internal server error"));
}

#[test]
fn changed_password_verifies() {
    let hash = hash_new_password("Old#pass1").unwrap();
    let new_hash = change_password("Old#pass1", &hash, "New#pass1").unwrap();
    assert_eq!(check_credentials(Some(((), new_hash)), "New#pass1"), Ok(()));
}

#[test]
fn session_flags_mark_the_request_session() {
    let flags = request_session_flags(&vec![vec![1, 2], vec![3], vec![1, 2, 3]], &vec![3]);
    assert_eq!(flags, vec![false, true, false]);
}

#[test]
fn sign_out_by_id_decisions() {
    let (s, e) = decide_sign_out_session(None, 1, &vec![]).unwrap_err();
    assert_eq!((s, e.message()), (400, "session does not exist"));
    let (s, e) = decide_sign_out_session(Some((2, vec![9])), 1, &vec![9]).unwrap_err();
    assert_eq!((s, e.message()), (401, "session does not belong to the request user"));
    assert_eq!(decide_sign_out_session(Some((1, vec![9])), 1, &vec![9]).unwrap(), true);
    assert_eq!(decide_sign_out_session(Some((1, vec![8])), 1, &vec![9]).unwrap(), false);
}

#[test]
fn sign_up_rejects_taken_email_then_username() {
    let (s, e) = check_sign_up(true, true).unwrap_err();
    assert_eq!((s, e.message()), (400, EMAIL_IN_USE));
    let (s, e) = check_sign_up(false, true).unwrap_err();
    assert_eq!((s, e.message()), (400, USERNAME_IN_USE));
    assert!(check_sign_up(false, false).is_ok());
}

#[test]
fn email_confirmation_decisions() {
    let (s, e) = decide_confirm_email_by_token(false, Some(false)).unwrap_err();
    assert_eq!((s, e.message()), (401, "invalid token"));
    let (s, e) = decide_confirm_email_by_token(true, None).unwrap_err();
    assert_eq!((s, e.message()), (404, "user not found with this reset password token"));
    let (s, e) = decide_confirm_email_by_token(true, Some(true)).unwrap_err();
    assert_eq!((s, e.message()), (400, EMAIL_ALREADY_VERIFIED));
    assert!(decide_confirm_email_by_token(true, Some(false)).is_ok());
    let (s, e) = decide_user_confirmation_request(true).unwrap_err();
    assert_eq!((s, e.message()), (400, EMAIL_ALREADY_VERIFIED));
    assert!(decide_user_confirmation_request(false).is_ok());
    let (s, e) = decide_org_confirmation_request(None).unwrap_err();
    assert_eq!((s, e.message()), (400, "user does not have a organization to verify emails"));
    assert!(decide_org_confirmation_request(Some(false)).is_ok());
    let (s, e) = decide_recover_password_request(false).unwrap_err();
    assert_eq!((s, e.message()), (404, "user not found with this email"));
}

#[test]
fn password_recovery_decisions() {
    let (s, e) = decide_password_recovery(false, true, "New#pass1").unwrap_err();
    assert_eq!((s, e.message()), (401, "invalid token"));
    let (s, e) = decide_password_recovery(true, false, "New#pass1").unwrap_err();
    assert_eq!((s, e.message()), (404, "user not found with this reset password token"));
}

#[test]
fn registration_plan_creates_org_admin_level_and_user() {
    let dto = RegisterOrganization {
        username: String::from("new_user"),
        email: String::from("new@user.com"),
        password: String::from("Pass#word1"),
    };
    let plan = plan_registration(dto, vec![String::from("CREATE_TRACKER")]).unwrap();
    assert_eq!(plan.organization_name, "new_user");
    assert!(!plan.organization_blocked);
    assert_eq!(plan.billing_email, "new@user.com");
    assert_eq!(plan.access_level_name, "admin");
    assert!(plan.access_level_is_fixed);
    assert_eq!(plan.access_level_description, "root access level");
    assert_eq!(plan.access_level_permissions, vec![String::from("CREATE_TRACKER")]);
    assert_eq!(plan.user_username, "new_user");
    assert!(!plan.user_email_verified);
    assert_ne!(plan.user_password_hash, "Pass#word1");
}

#[test]
fn root_access_level_gets_every_permission() {
    let all = Permission::to_string_vec();
    assert_eq!(all.len(), 11);
    assert_eq!(all[0], "CREATE_SIM_CARD");
    assert_eq!(all[10], "LIST_USER_SESSIONS");
    assert_eq!(Permission::ManageUserAccessLevels.name(), "MANAGE_USER_ACCESS_LEVELS");
    assert!(all.contains(&String::from(Permission::UpdateTracker.name())));
}
