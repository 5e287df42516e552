//! Authentication rules: token claims and audiences, credential checks,
//! password changes, session sign-out and email confirmation decisions.

use vstd::prelude::*;
use crate::error_codes::{EMAIL_ALREADY_VERIFIED, EMAIL_IN_USE, USERNAME_IN_USE};
use crate::responses::{api_error, in_chrono_range, internal_error_msg, internal_error_res, is_error, utc_now, ApiError, ClockReading, BAD_REQUEST, INTERNAL_SERVER_ERROR, NOT_FOUND, UNAUTHORIZED};
use crate::validation::{
    all_class, check_email, in_class, lemma_symbol_class, check_length, contains_class, has_class, length_ok, only_class, rule,
    valid_email, CharClass, Collector, Validate, Violations, ViolationView,
};
use crate::text::{chars_of, decimal, format_int, lemma_parse_decimal, parse_i32, parse_i32_spec};

verus! {

// ------------------------------------------------------------------
// Token claims

/// Claims of the API's JSON web tokens.
#[derive(Clone, Debug)]
pub struct Claims {
    /// Audience.
    pub aud: String,
    /// Issued at, as a UTC timestamp in seconds.
    pub iat: usize,
    /// Issuer.
    pub iss: String,
    /// Subject (whom the token refers to).
    pub sub: String,
    /// Expiration time, as a UTC timestamp in seconds.
    pub exp: Option<usize>,
}

/// Validity of a password recovery token, in seconds (15 minutes).
pub const RESET_PASSWORD_TOKEN_SECS: i64 = 900;

/// Validity of an email address confirmation token, in seconds (8 hours).
pub const CONFIRM_EMAIL_TOKEN_SECS: i64 = 28800;

impl Claims {
    /// The default claims, issued at `now` (seconds since the epoch) and
    /// without expiration.
    pub fn issued_at(now: i64) -> (c: Claims)
        ensures
            c.aud@ == "rastercar users"@,
            c.iat == now as usize,
            c.iss@ == "rastercar API"@,
            c.sub@ == "rastercar API token"@,
            c.exp is None,
    {
        Claims {
            aud: "rastercar users".to_string(),
            iat: now as usize,
            iss: "rastercar API".to_string(),
            sub: "rastercar API token".to_string(),
            exp: None,
        }
    }

    /// Sets `iat` (issued at) to `now` and `exp` to `now + duration_secs`.
    pub fn set_expiration_from(&mut self, now: i64, duration_secs: i64)
        requires
            i64::MIN <= now + duration_secs <= i64::MAX,
        ensures
            final(self).iat == now as usize,
            final(self).exp == Some((now + duration_secs) as usize),
            final(self).aud == old(self).aud,
            final(self).iss == old(self).iss,
            final(self).sub == old(self).sub,
    {
        self.exp = Some((now + duration_secs) as usize);
        self.iat = now as usize;
    }

    /// Sets `iat` (issued at) to the current time and `exp` to the current
    /// time plus `duration_secs`. A sum beyond the `i64` range is clamped
    /// to it.
    pub fn set_expiration_in(&mut self, duration_secs: i64) -> (r: &Self)
        ensures
            exists|now: i64|
                in_chrono_range(now as int) && final(self).iat == now as usize && final(self).exp == Some(
                    #[trigger] expiry_after(now, duration_secs) as usize,
                ),
            exists|c: ClockReading|
                final(self).iat == (#[trigger] c.spec_time()).secs as usize && final(self).exp == Some(
                    expiry_after(c.spec_time().secs, duration_secs) as usize,
                ),
            final(self).aud == old(self).aud,
            final(self).iss == old(self).iss,
            final(self).sub == old(self).sub,
            *r == *final(self),
    {
        let reading = utc_now();
        let now = reading.time().secs;
        let end: i64 = if duration_secs > 0 && now > i64::MAX - duration_secs {
            i64::MAX
        } else if duration_secs < 0 && now < i64::MIN - duration_secs {
            i64::MIN
        } else {
            now + duration_secs
        };
        self.exp = Some(end as usize);
        self.iat = now as usize;
        assert(in_chrono_range(now as int) && final(self).iat == now as usize && final(self).exp == Some(expiry_after(now, duration_secs) as usize));
        assert(final(self).iat == reading.spec_time().secs as usize && final(self).exp == Some(expiry_after(reading.spec_time().secs, duration_secs) as usize));
        self
    }
}

/// Whether `c` was issued at `now` seconds after the epoch.
pub open spec fn issued_at_time(c: Claims, now: i64) -> bool {
    c.iat == now as usize
}

/// The expiration `duration_secs` after `now`, clamped to the `i64` range.
pub open spec fn expiry_after(now: i64, duration_secs: i64) -> i64 {
    clamp_i64(now + duration_secs)
}

/// `v` clamped to the `i64` range.
pub open spec fn clamp_i64(v: int) -> i64 {
    if v < i64::MIN { i64::MIN } else if v > i64::MAX { i64::MAX } else { v as i64 }
}

impl Default for Claims {
    /// Claims issued now (a clock reading), without expiration.
    fn default() -> (c: Claims)
        ensures
            exists|now: i64| in_chrono_range(now as int) && #[trigger] issued_at_time(c, now),
            exists|reading: ClockReading| #[trigger] issued_at_time(c, reading.spec_time().secs),
            c.aud@ == "rastercar users"@,
            c.iss@ == "rastercar API"@,
            c.sub@ == "rastercar API token"@,
            c.exp is None,
    {
        let reading = utc_now();
        let now = reading.time().secs;
        let c = Claims::issued_at(now);
        assert(issued_at_time(c, now));
        assert(issued_at_time(c, reading.spec_time().secs));
        c
    }
}

/// The audience naming a user.
pub open spec fn user_audience_spec(user_id: int) -> Seq<char> {
    "user:"@ + decimal(user_id)
}

/// The audience naming an organization.
pub open spec fn organization_audience_spec(org_id: int) -> Seq<char> {
    "organization:"@ + decimal(org_id)
}

/// `user:{user_id}`, the audience of tokens issued for a user.
pub fn user_audience(user_id: i32) -> (aud: String)
    ensures
        aud@ == user_audience_spec(user_id as int),
{
    let mut aud = "user:".to_string();
    let id = format_int(user_id as i64);
    aud.append(id.as_str());
    aud
}

/// `organization:{org_id}`, the audience of tokens issued for an organization.
pub fn organization_audience(org_id: i32) -> (aud: String)
    ensures
        aud@ == organization_audience_spec(org_id as int),
{
    let mut aud = "organization:".to_string();
    let id = format_int(org_id as i64);
    aud.append(id.as_str());
    aud
}

/// The user id named by a `user:{id}` audience.
pub open spec fn user_id_from_audience_spec(aud: Seq<char>) -> Option<i32> {
    if aud.len() >= 5 && aud.subrange(0, 5) == "user:"@ {
        parse_i32_spec(aud.subrange(5, aud.len() as int))
    } else {
        None
    }
}

/// Reads the user id out of a token audience of the form `user:{id}`.
pub fn user_id_from_audience(aud: &str) -> (id: Option<i32>)
    ensures
        id == user_id_from_audience_spec(aud@),
{
    proof {
        reveal_strlit("user:");
    }
    let chars = chars_of(aud);
    let prefix = chars_of("user:");
    if chars.len() < 5 {
        return None;
    }
    let mut i: usize = 0;
    while i < 5
        invariant
            i <= 5,
            chars@.len() >= 5,
            chars@ == aud@,
            prefix@ == "user:"@,
            prefix@.len() == 5,
            forall|k: int| 0 <= k < i ==> chars@[k] == prefix@[k],
        decreases 5 - i,
    {
        if chars[i] != prefix[i] {
            assert(chars@.subrange(0, 5)[i as int] != prefix@[i as int]);
            assert(chars@.subrange(0, 5) != "user:"@);
            return None;
        }
        i = i + 1;
    }
    assert(chars@.subrange(0, 5) =~= prefix@);
    parse_i32(&chars, 5)
}

/// The audience of a user's token reads back as the user's id.
pub proof fn lemma_user_audience_roundtrip(user_id: i32)
    ensures
        user_id_from_audience_spec(user_audience_spec(user_id as int)) == Some(user_id),
{
    reveal_strlit("user:");
    let aud = user_audience_spec(user_id as int);
    assert(aud.subrange(0, 5) =~= "user:"@);
    assert(aud.subrange(5, aud.len() as int) =~= decimal(user_id as int));
    lemma_parse_decimal(user_id);
}

/// The claims of a password recovery token for `user_id`, issued at `now`:
/// valid for 15 minutes.
pub fn reset_password_claims_at(user_id: i32, now: i64) -> (c: Claims)
    requires
        now + RESET_PASSWORD_TOKEN_SECS <= i64::MAX,
    ensures
        c.aud@ == user_audience_spec(user_id as int),
        c.sub@ == "restore password token"@,
        c.iss@ == "rastercar API"@,
        c.iat == now as usize,
        c.exp == Some((now + RESET_PASSWORD_TOKEN_SECS) as usize),
{
    let mut claims = Claims::issued_at(now);
    claims.set_expiration_from(now, RESET_PASSWORD_TOKEN_SECS);
    claims.aud = user_audience(user_id);
    claims.sub = "restore password token".to_string();
    claims
}

/// The claims of a user's email address confirmation token, issued at
/// `now`: valid for 8 hours.
pub fn user_confirm_email_claims_at(user_id: i32, now: i64) -> (c: Claims)
    requires
        now + CONFIRM_EMAIL_TOKEN_SECS <= i64::MAX,
    ensures
        c.aud@ == user_audience_spec(user_id as int),
        c.sub@ == "confirm email address token"@,
        c.iss@ == "rastercar API"@,
        c.iat == now as usize,
        c.exp == Some((now + CONFIRM_EMAIL_TOKEN_SECS) as usize),
{
    let mut claims = Claims::issued_at(now);
    claims.set_expiration_from(now, CONFIRM_EMAIL_TOKEN_SECS);
    claims.aud = user_audience(user_id);
    claims.sub = "confirm email address token".to_string();
    claims
}

/// The claims of an organization's billing email confirmation token,
/// issued at `now`: valid for 8 hours.
pub fn org_confirm_email_claims_at(org_id: i32, now: i64) -> (c: Claims)
    requires
        now + CONFIRM_EMAIL_TOKEN_SECS <= i64::MAX,
    ensures
        c.aud@ == organization_audience_spec(org_id as int),
        c.sub@ == "confirm email address token"@,
        c.iss@ == "rastercar API"@,
        c.iat == now as usize,
        c.exp == Some((now + CONFIRM_EMAIL_TOKEN_SECS) as usize),
{
    let mut claims = Claims::issued_at(now);
    claims.set_expiration_from(now, CONFIRM_EMAIL_TOKEN_SECS);
    claims.aud = organization_audience(org_id);
    claims.sub = "confirm email address token".to_string();
    claims
}

// ------------------------------------------------------------------
// Passwords

/// What `bcrypt::verify` answers for a password and a stored hash:
/// `Some(matches)`, or `None` when the hash cannot be read.
pub uninterp spec fn bcrypt_verify_result(password: Seq<char>, hash: Seq<char>) -> Option<bool>;

/// Checks `password` against the stored bcrypt `hash` with `bcrypt::verify`.
/// Its answer depends on the password and the hash only; it is named, not
/// restated. An unreadable hash gives `None`.
#[verifier::external_body]
fn bcrypt_verify(password: &str, hash: &str) -> (r: Option<bool>)
    ensures
        r == bcrypt_verify_result(password@, hash@),
{
    bcrypt::verify(password, hash).ok()
}

/// Hashes `password` with `bcrypt::hash` at the default cost, with a salt
/// drawn from the OS random source. The hash is not determined by the
/// password; what the source shows of it is that verifying the same
/// password against it succeeds. `None` when no random salt could be drawn.
#[verifier::external_body]
fn bcrypt_hash(password: &str) -> (r: Option<String>)
    ensures
        r matches Some(h) ==> bcrypt_verify_result(password@, h@) == Some(true),
{
    bcrypt::hash(password, bcrypt::DEFAULT_COST).ok()
}

/// Why a user could not be found from credentials.
#[derive(Clone, Copy, Debug, PartialEq, Eq)]
pub enum UserFromCredentialsError {
    NotFound,
    InternalError,
    InvalidPassword,
}

/// The outcome of a sign-in with `password` for the user found by email,
/// if any, given with the bcrypt hash of the user's password.
pub open spec fn credentials_spec<U>(found: Option<(U, Seq<char>)>, password: Seq<char>) -> Result<U, UserFromCredentialsError> {
    match found {
        None => Err(UserFromCredentialsError::NotFound),
        Some((u, hash)) => match bcrypt_verify_result(password, hash) {
            None => Err(UserFromCredentialsError::InternalError),
            Some(true) => Ok(u),
            Some(false) => Err(UserFromCredentialsError::InvalidPassword),
        },
    }
}

/// A password stored by this library (at sign-up, by a password change or
/// a recovery) signs the user in with that password.
pub proof fn lemma_stored_password_signs_in<U>(user: U, password: Seq<char>, stored_hash: Seq<char>)
    requires
        bcrypt_verify_result(password, stored_hash) == Some(true),
    ensures
        credentials_spec(Some((user, stored_hash)), password) == Ok::<U, UserFromCredentialsError>(user),
{
}

/// Checks credentials against the user found by email, if any, given with
/// the bcrypt hash of the user's password.
pub fn check_credentials<U>(found: Option<(U, String)>, password: &str) -> (r: Result<U, UserFromCredentialsError>)
    ensures
        r == credentials_spec(
            match found { Some((u, h)) => Some((u, h@)), None => None },
            password@,
        ),
{
    match found {
        None => Err(UserFromCredentialsError::NotFound),
        Some((user, hash)) => match bcrypt_verify(password, hash.as_str()) {
            None => Err(UserFromCredentialsError::InternalError),
            Some(true) => Ok(user),
            Some(false) => Err(UserFromCredentialsError::InvalidPassword),
        },
    }
}

/// The response a sign-in gets for a credentials error.
pub fn sign_in_error_response(e: UserFromCredentialsError) -> (r: ApiError)
    ensures
        e == UserFromCredentialsError::NotFound ==> is_error(r, NOT_FOUND, "user not found"@),
        e == UserFromCredentialsError::InternalError ==> is_error(r, INTERNAL_SERVER_ERROR, "internal server error"@),
        e == UserFromCredentialsError::InvalidPassword ==> is_error(r, UNAUTHORIZED, "invalid password"@),
{
    match e {
        UserFromCredentialsError::NotFound => api_error(NOT_FOUND, "user not found"),
        UserFromCredentialsError::InternalError => internal_error_res(),
        UserFromCredentialsError::InvalidPassword => api_error(UNAUTHORIZED, "invalid password"),
    }
}

/// Hashes a new password; failure to hash is an internal error.
pub fn hash_new_password(password: &str) -> (r: Result<String, ApiError>)
    ensures
        r matches Ok(h) ==> bcrypt_verify_result(password@, h@) == Some(true),
        r matches Err(e) ==> is_error(e, INTERNAL_SERVER_ERROR, "internal server error"@),
{
    match bcrypt_hash(password) {
        Some(h) => Ok(h),
        None => Err(internal_error_res()),
    }
}

/// Changes the request user's password: `old_password` must match the
/// stored `current_hash`; returns the hash to store for `new_password`.
pub fn change_password(old_password: &str, current_hash: &str, new_password: &str) -> (r: Result<String, ApiError>)
    ensures
        bcrypt_verify_result(old_password@, current_hash@) is None ==> (r matches Err(e) && is_error(
            e,
            INTERNAL_SERVER_ERROR,
            "internal server error"@,
        )),
        bcrypt_verify_result(old_password@, current_hash@) == Some(false) ==> (r matches Err(e)
            && is_error(e, UNAUTHORIZED, "invalid password"@)),
        bcrypt_verify_result(old_password@, current_hash@) == Some(true) ==> match r {
            Ok(h) => bcrypt_verify_result(new_password@, h@) == Some(true),
            Err(e) => is_error(e, INTERNAL_SERVER_ERROR, "error hashing password"@),
        },
{
    match bcrypt_verify(old_password, current_hash) {
        None => Err(internal_error_res()),
        Some(false) => Err(api_error(UNAUTHORIZED, "invalid password")),
        Some(true) => match bcrypt_hash(new_password) {
            Some(h) => Ok(h),
            None => Err(internal_error_msg("error hashing password")),
        },
    }
}

// ------------------------------------------------------------------
// Sessions

/// Whether two session tokens are the same.
pub fn same_token(a: &Vec<u8>, b: &Vec<u8>) -> (r: bool)
    ensures
        r == (a@ == b@),
{
    if a.len() != b.len() {
        return false;
    }
    let mut i: usize = 0;
    while i < a.len()
        invariant
            a@.len() == b@.len(),
            i <= a@.len(),
            forall|k: int| 0 <= k < i ==> a@[k] == b@[k],
        decreases a.len() - i,
    {
        if a[i] != b[i] {
            return false;
        }
        i = i + 1;
    }
    assert(a@ =~= b@);
    true
}

/// For each listed session token, whether it is the token of the session
/// the request was made with.
pub fn request_session_flags(tokens: &Vec<Vec<u8>>, current: &Vec<u8>) -> (flags: Vec<bool>)
    ensures
        flags@.len() == tokens@.len(),
        forall|i: int| 0 <= i < tokens@.len() ==> flags@[i] == (tokens@[i]@ == current@),
{
    let mut flags: Vec<bool> = Vec::new();
    let mut i: usize = 0;
    while i < tokens.len()
        invariant
            i <= tokens@.len(),
            flags@.len() == i,
            forall|k: int| 0 <= k < i ==> flags@[k] == (tokens@[k]@ == current@),
        decreases tokens.len() - i,
    {
        let same = same_token(&tokens[i], current);
        flags.push(same);
        i = i + 1;
    }
    flags
}

/// Decides a sign-out of a session by its public id. `session` is the
/// session with that id, if any, as its owner's user id and its token.
/// On success, says whether the session cookie must be cleared (the session
/// is the one of the request).
pub fn decide_sign_out_session(
    session: Option<(i32, Vec<u8>)>,
    request_user_id: i32,
    request_token: &Vec<u8>,
) -> (r: Result<bool, ApiError>)
    ensures
        match session {
            None => r matches Err(e) && is_error(e, BAD_REQUEST, "session does not exist"@),
            Some((owner, token)) => if owner != request_user_id {
                r matches Err(e) && is_error(
                    e,
                    UNAUTHORIZED,
                    "session does not belong to the request user"@,
                )
            } else {
                r == Ok::<bool, ApiError>(token@ == request_token@)
            },
        },
{
    match session {
        None => Err(api_error(BAD_REQUEST, "session does not exist")),
        Some((owner, token)) => {
            if owner != request_user_id {
                Err(api_error(UNAUTHORIZED, "session does not belong to the request user"))
            } else {
                Ok(same_token(&token, request_token))
            }
        },
    }
}

// ------------------------------------------------------------------
// Sign up and email confirmation

/// Rejects a sign-up whose email or username is already taken.
pub fn check_sign_up(email_in_use: bool, username_in_use: bool) -> (r: Result<(), ApiError>)
    ensures
        email_in_use ==> (r matches Err(e) && is_error(e, BAD_REQUEST, EMAIL_IN_USE@)),
        !email_in_use && username_in_use ==> (r matches Err(e) && is_error(e, BAD_REQUEST, USERNAME_IN_USE@)),
        !email_in_use && !username_in_use ==> r is Ok,
{
    if email_in_use {
        return Err(api_error(BAD_REQUEST, EMAIL_IN_USE));
    }
    if username_in_use {
        return Err(api_error(BAD_REQUEST, USERNAME_IN_USE));
    }
    Ok(())
}

/// Decides a confirmation of an email address by token. `token_valid`
/// says whether the token decoded; `found` is whether the address of the
/// entity holding the token is already verified, if an entity holds it.
pub fn decide_confirm_email_by_token(token_valid: bool, found: Option<bool>) -> (r: Result<(), ApiError>)
    ensures
        !token_valid ==> (r matches Err(e) && is_error(e, UNAUTHORIZED, "invalid token"@)),
        token_valid && found is None ==> (r matches Err(e) && is_error(
            e,
            NOT_FOUND,
            "user not found with this reset password token"@,
        )),
        token_valid && found == Some(true) ==> (r matches Err(e) && is_error(
            e,
            BAD_REQUEST,
            EMAIL_ALREADY_VERIFIED@,
        )),
        token_valid && found == Some(false) ==> r is Ok,
{
    if !token_valid {
        return Err(api_error(UNAUTHORIZED, "invalid token"));
    }
    match found {
        None => Err(api_error(NOT_FOUND, "user not found with this reset password token")),
        Some(true) => Err(api_error(BAD_REQUEST, EMAIL_ALREADY_VERIFIED)),
        Some(false) => Ok(()),
    }
}

/// Decides a password change by recovery token: the token must decode and
/// belong to a user. On success, the hash of the new password to store.
pub fn decide_password_recovery(token_valid: bool, user_found: bool, new_password: &str) -> (r: Result<String, ApiError>)
    ensures
        !token_valid ==> (r matches Err(e) && is_error(e, UNAUTHORIZED, "invalid token"@)),
        token_valid && !user_found ==> (r matches Err(e) && is_error(
            e,
            NOT_FOUND,
            "user not found with this reset password token"@,
        )),
        token_valid && user_found ==> match r {
            Ok(h) => bcrypt_verify_result(new_password@, h@) == Some(true),
            Err(e) => is_error(e, INTERNAL_SERVER_ERROR, "internal server error"@),
        },
{
    if !token_valid {
        return Err(api_error(UNAUTHORIZED, "invalid token"));
    }
    if !user_found {
        return Err(api_error(NOT_FOUND, "user not found with this reset password token"));
    }
    hash_new_password(new_password)
}

/// Decides a request for a password recovery email: a user must have the address.
pub fn decide_recover_password_request(user_found: bool) -> (r: Result<(), ApiError>)
    ensures
        user_found <==> r is Ok,
        r matches Err(e) ==> is_error(e, NOT_FOUND, "user not found with this email"@),
{
    if user_found { Ok(()) } else { Err(api_error(NOT_FOUND, "user not found with this email")) }
}

/// Decides a request for a confirmation email of the request user's address.
pub fn decide_user_confirmation_request(email_verified: bool) -> (r: Result<(), ApiError>)
    ensures
        !email_verified <==> r is Ok,
        r matches Err(e) ==> is_error(e, BAD_REQUEST, EMAIL_ALREADY_VERIFIED@),
{
    if email_verified { Err(api_error(BAD_REQUEST, EMAIL_ALREADY_VERIFIED)) } else { Ok(()) }
}

/// Decides a request for a confirmation email of the organization's billing
/// address. `org` is whether that address is verified, if the user belongs
/// to an organization.
pub fn decide_org_confirmation_request(org: Option<bool>) -> (r: Result<(), ApiError>)
    ensures
        org is None ==> (r matches Err(e) && is_error(
            e,
            BAD_REQUEST,
            "user does not have a organization to verify emails"@,
        )),
        org == Some(true) ==> (r matches Err(e) && is_error(e, BAD_REQUEST, EMAIL_ALREADY_VERIFIED@)),
        org == Some(false) ==> r is Ok,
{
    match org {
        None => Err(api_error(BAD_REQUEST, "user does not have a organization to verify emails")),
        Some(true) => Err(api_error(BAD_REQUEST, EMAIL_ALREADY_VERIFIED)),
        Some(false) => Ok(()),
    }
}

// ------------------------------------------------------------------
// Payloads

pub const MSG_USERNAME_CHARS: &'static str = "username must contain only lowercase alphanumeric characters and underscores";
pub const MSG_PASSWORD_NUMBER: &'static str = "password must contain a number";
pub const MSG_PASSWORD_SYMBOL: &'static str = "password must contain a symbol in: #?!@$%^&*-";
pub const MSG_PASSWORD_UPPER: &'static str = "password must contain a uppercase character";
pub const MSG_PASSWORD_LOWER: &'static str = "password must contain a lowercase character";
pub const MSG_NEW_PASSWORD_NUMBER: &'static str = "new password must contain a number";
pub const MSG_NEW_PASSWORD_SYMBOL: &'static str = "new password must contain a symbol in: #?!@$%^&*-";
pub const MSG_NEW_PASSWORD_UPPER: &'static str = "new password must contain a uppercase character";
pub const MSG_NEW_PASSWORD_LOWER: &'static str = "new password must contain a lowercase character";

/// The rules of a username: lowercase letters, digits and underscores, 5
/// to 32 characters.
pub open spec fn username_violations(field: &'static str, s: Seq<char>) -> Seq<ViolationView> {
    rule(only_class(s, CharClass::LowerAlnumUnderscore), field, "regex", Some(MSG_USERNAME_CHARS))
        + rule(length_ok(s, Some(5), Some(32)), field, "length", None)
}

pub fn check_username(c: &mut Collector, field: &'static str, s: &str)
    ensures
        final(c).seen() == old(c).seen() + username_violations(field, s@),
{
    c.check(all_class(s, CharClass::LowerAlnumUnderscore), field, "regex", Some(MSG_USERNAME_CHARS));
    c.check(check_length(s, Some(5), Some(32)), field, "length", None);
}

/// The rules of a new password: 5 to 256 characters with a digit, a symbol
/// among `#?!@$%^&*-`, an uppercase and a lowercase letter; `new_wording`
/// selects the messages that speak of a "new password".
pub open spec fn password_violations(field: &'static str, s: Seq<char>, new_wording: bool) -> Seq<ViolationView> {
    rule(length_ok(s, Some(5), Some(256)), field, "length", None)
        + rule(contains_class(s, CharClass::Digit), field, "regex",
            Some(if new_wording { MSG_NEW_PASSWORD_NUMBER } else { MSG_PASSWORD_NUMBER }))
        + rule(contains_class(s, CharClass::Symbol), field, "regex",
            Some(if new_wording { MSG_NEW_PASSWORD_SYMBOL } else { MSG_PASSWORD_SYMBOL }))
        + rule(contains_class(s, CharClass::Upper), field, "regex",
            Some(if new_wording { MSG_NEW_PASSWORD_UPPER } else { MSG_PASSWORD_UPPER }))
        + rule(contains_class(s, CharClass::Lower), field, "regex",
            Some(if new_wording { MSG_NEW_PASSWORD_LOWER } else { MSG_PASSWORD_LOWER }))
}

pub fn check_password(c: &mut Collector, field: &'static str, s: &str, new_wording: bool)
    ensures
        final(c).seen() == old(c).seen() + password_violations(field, s@, new_wording),
{
    c.check(check_length(s, Some(5), Some(256)), field, "length", None);
    c.check(has_class(s, CharClass::Digit), field, "regex",
        Some(if new_wording { MSG_NEW_PASSWORD_NUMBER } else { MSG_PASSWORD_NUMBER }));
    c.check(has_class(s, CharClass::Symbol), field, "regex",
        Some(if new_wording { MSG_NEW_PASSWORD_SYMBOL } else { MSG_PASSWORD_SYMBOL }));
    c.check(has_class(s, CharClass::Upper), field, "regex",
        Some(if new_wording { MSG_NEW_PASSWORD_UPPER } else { MSG_PASSWORD_UPPER }));
    c.check(has_class(s, CharClass::Lower), field, "regex",
        Some(if new_wording { MSG_NEW_PASSWORD_LOWER } else { MSG_PASSWORD_LOWER }));
}

/// Sign-up payload: the new user and the organization named after them.
#[derive(Clone, Debug)]
pub struct RegisterOrganization {
    pub username: String,
    pub email: String,
    pub password: String,
}

impl Validate for RegisterOrganization {
    open spec fn violations(&self) -> Seq<ViolationView> {
        username_violations("username", self.username@)
            + rule(valid_email(self.email@), "email", "email", None)
            + password_violations("password", self.password@, false)
    }

    fn validate(&self) -> (r: Result<(), Violations>) {
        let mut c = Collector::new();
        check_username(&mut c, "username", self.username.as_str());
        c.check(check_email(self.email.as_str()), "email", "email", None);
        check_password(&mut c, "password", self.password.as_str(), false);
        c.finish()
    }
}

/// Sign-in payload.
#[derive(Clone, Debug)]
pub struct SignIn {
    pub password: String,
    pub email: String,
}

impl Validate for SignIn {
    open spec fn violations(&self) -> Seq<ViolationView> {
        rule(length_ok(self.password@, Some(5), Some(256)), "password", "length", None)
            + rule(valid_email(self.email@), "email", "email", None)
    }

    fn validate(&self) -> (r: Result<(), Violations>) {
        let mut c = Collector::new();
        c.check(check_length(self.password.as_str(), Some(5), Some(256)), "password", "length", None);
        c.check(check_email(self.email.as_str()), "email", "email", None);
        c.finish()
    }
}

/// Password reset payload: the new password and the recovery token.
#[derive(Clone, Debug)]
pub struct ResetPassword {
    pub new_password: String,
    pub password_reset_token: String,
}

impl Validate for ResetPassword {
    open spec fn violations(&self) -> Seq<ViolationView> {
        password_violations("new_password", self.new_password@, true)
    }

    fn validate(&self) -> (r: Result<(), Violations>) {
        let mut c = Collector::new();
        check_password(&mut c, "new_password", self.new_password.as_str(), true);
        c.finish()
    }
}

/// A password that passes the password rules has 5 to 256 characters, a
/// digit, a symbol among `#?!@$%^&*-`, an uppercase and a lowercase letter.
pub proof fn lemma_accepted_password_is_strong(field: &'static str, s: Seq<char>, new_wording: bool)
    requires
        password_violations(field, s, new_wording).len() == 0,
    ensures
        5 <= s.len() <= 256,
        contains_class(s, CharClass::Digit),
        contains_class(s, CharClass::Symbol),
        contains_class(s, CharClass::Upper),
        contains_class(s, CharClass::Lower),
{
}

/// A password of 5 to 256 characters with a digit, one of the symbols
/// `#?!@$%^&*-`, an uppercase and a lowercase letter passes the password
/// rules.
pub proof fn lemma_strong_password_is_accepted(
    field: &'static str,
    s: Seq<char>,
    new_wording: bool,
    digit: int,
    symbol: int,
    upper: int,
    lower: int,
)
    requires
        5 <= s.len() <= 256,
        0 <= digit < s.len() && '0' <= s[digit] <= '9',
        0 <= symbol < s.len() && "#?!@$%^&*-"@.contains(s[symbol]),
        0 <= upper < s.len() && 'A' <= s[upper] <= 'Z',
        0 <= lower < s.len() && 'a' <= s[lower] <= 'z',
    ensures
        password_violations(field, s, new_wording).len() == 0,
{
    lemma_symbol_class(s[symbol]);
    assert(in_class(s[digit], CharClass::Digit));
    assert(in_class(s[symbol], CharClass::Symbol));
    assert(in_class(s[upper], CharClass::Upper));
    assert(in_class(s[lower], CharClass::Lower));
}

/// A username that passes the username rules has 5 to 32 characters, all
/// lowercase letters, digits or underscores.
pub proof fn lemma_accepted_username(field: &'static str, s: Seq<char>)
    requires
        username_violations(field, s).len() == 0,
    ensures
        5 <= s.len() <= 32,
        only_class(s, CharClass::LowerAlnumUnderscore),
{
}

/// The records a sign-up creates: the organization named after the user,
/// its fixed root access level, and the user.
#[derive(Clone, Debug)]
pub struct RegistrationPlan {
    pub organization_name: String,
    pub organization_blocked: bool,
    pub billing_email: String,
    pub billing_email_verified: bool,
    pub access_level_name: String,
    pub access_level_is_fixed: bool,
    pub access_level_description: String,
    pub access_level_permissions: Vec<String>,
    pub user_email: String,
    pub user_username: String,
    pub user_password_hash: String,
    pub user_email_verified: bool,
}

/// Plans a sign-up: the organization takes the username as its name and
/// the email as its billing address, the root access level grants all
/// `permissions`, and the user's password is stored hashed. Failure to hash
/// is an internal error.
pub fn plan_registration(dto: RegisterOrganization, permissions: Vec<String>) -> (r: Result<RegistrationPlan, ApiError>)
    ensures
        r matches Ok(p) ==> {
            &&& p.organization_name@ == dto.username@
            &&& !p.organization_blocked
            &&& p.billing_email@ == dto.email@
            &&& !p.billing_email_verified
            &&& p.access_level_name@ == "admin"@
            &&& p.access_level_is_fixed
            &&& p.access_level_description@ == "root access level"@
            &&& p.access_level_permissions@ == permissions@
            &&& p.user_email@ == dto.email@
            &&& p.user_username@ == dto.username@
            &&& bcrypt_verify_result(dto.password@, p.user_password_hash@) == Some(true)
            &&& !p.user_email_verified
        },
        r matches Err(e) ==> is_error(e, INTERNAL_SERVER_ERROR, "internal server error"@),
{
    let hash = hash_new_password(dto.password.as_str())?;
    Ok(RegistrationPlan {
        organization_name: dto.username.clone(),
        organization_blocked: false,
        billing_email: dto.email.clone(),
        billing_email_verified: false,
        access_level_name: "admin".to_string(),
        access_level_is_fixed: true,
        access_level_description: "root access level".to_string(),
        access_level_permissions: permissions,
        user_email: dto.email,
        user_username: dto.username,
        user_password_hash: hash,
        user_email_verified: false,
    })
}

} // verus!
