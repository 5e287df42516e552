//! Error codes sent as the message of some error responses, so that clients
//! can tell these failures apart.

use vstd::prelude::*;

verus! {

/// An action could not be executed because of missing permissions.
pub const MISSING_PERMISSIONS: &'static str = "MISSING_PERMISSIONS";

/// An entity could not be created or updated with a given email because it
/// is already in use by another entity.
pub const EMAIL_IN_USE: &'static str = "EMAIL_IN_USE";

/// A user could not be created or updated with a given username because it
/// is already in use.
pub const USERNAME_IN_USE: &'static str = "USERNAME_IN_USE";

/// A SIM card could not be created because its SSN is already in use.
pub const SSN_IN_USE: &'static str = "SSN_IN_USE";

/// A SIM card could not be created because its phone number is already in use.
pub const PHONE_NUMBER_IN_USE: &'static str = "PHONE_NUMBER_IN_USE";

/// A tracker could not be created because its IMEI is already in use.
pub const IMEI_IN_USE: &'static str = "IMEI_IN_USE";

/// A vehicle could not be created because its plate is already in use.
pub const PLATE_IN_USE: &'static str = "PLATE_IN_USE";

/// A request was not authorized because it did not carry the session id cookie.
pub const NO_SID_COOKIE: &'static str = "NO_SID_COOKIE";

/// A request was not authorized because its session is expired or unknown.
pub const INVALID_SESSION: &'static str = "INVALID_SESSION";

/// A request was not authorized because the user's organization is blocked.
pub const ORGANIZATION_BLOCKED: &'static str = "ORGANIZATION_BLOCKED";

/// An email address confirmation cannot be requested or made because the
/// address is already confirmed.
pub const EMAIL_ALREADY_VERIFIED: &'static str = "EMAIL_ALREADY_VERIFIED";

} // verus!
