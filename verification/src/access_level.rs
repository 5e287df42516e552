//! Access levels: the rules that protect fixed access levels, the request
//! user's own access level and access levels still in use.

use vstd::prelude::*;
use crate::responses::{api_error, is_error, ApiError, BAD_REQUEST, FORBIDDEN, NOT_FOUND};
use crate::validation::{Collector, Validate, Violations, ViolationView};

verus! {

/// Filters of an access level listing.
#[derive(Clone, Debug)]
pub struct ListAccessLevelsDto {
    /// Search by name.
    pub name: Option<String>,
}

impl Validate for ListAccessLevelsDto {
    open spec fn violations(&self) -> Seq<ViolationView> {
        Seq::<ViolationView>::empty()
    }

    fn validate(&self) -> (r: Result<(), Violations>) {
        Collector::new().finish()
    }
}

/// A change to an access level.
#[derive(Clone, Copy, Debug, PartialEq, Eq)]
pub enum AccessLevelChange {
    Update,
    Delete,
}

/// Checks an update or deletion of access level `target_id` by a user whose
/// own access level is `own_id`, given whether the target exists in the
/// organization and is fixed (`target_fixed`).
pub fn check_access_level_change(
    change: AccessLevelChange,
    own_id: i64,
    target_id: i64,
    target_fixed: Option<bool>,
) -> (r: Result<(), ApiError>)
    ensures
        own_id == target_id ==> (r matches Err(e) && is_error(
            e,
            FORBIDDEN,
            if change == AccessLevelChange::Update {
                "cannot update your own access level"@
            } else {
                "cannot delete your own access level"@
            },
        )),
        own_id != target_id && target_fixed is None ==> (r matches Err(e) && is_error(
            e,
            NOT_FOUND,
            "entity not found"@,
        )),
        own_id != target_id && target_fixed == Some(true) ==> (r matches Err(e) && is_error(
            e,
            FORBIDDEN,
            if change == AccessLevelChange::Update {
                "cannot change fixed access levels"@
            } else {
                "cannot delete a fixed access level"@
            },
        )),
        own_id != target_id && target_fixed == Some(false) ==> r is Ok,
{
    if own_id == target_id {
        return Err(match change {
            AccessLevelChange::Update => api_error(FORBIDDEN, "cannot update your own access level"),
            AccessLevelChange::Delete => api_error(FORBIDDEN, "cannot delete your own access level"),
        });
    }
    match target_fixed {
        None => Err(api_error(NOT_FOUND, "entity not found")),
        Some(true) => Err(match change {
            AccessLevelChange::Update => api_error(FORBIDDEN, "cannot change fixed access levels"),
            AccessLevelChange::Delete => api_error(FORBIDDEN, "cannot delete a fixed access level"),
        }),
        Some(false) => Ok(()),
    }
}

/// Checks that no user holds an access level about to be deleted.
pub fn check_access_level_unused(users_on_access_level: i64) -> (r: Result<(), ApiError>)
    ensures
        users_on_access_level <= 0 <==> r is Ok,
        r matches Err(e) ==> is_error(e, FORBIDDEN, "cannot delete access level with associated users"@),
{
    if users_on_access_level > 0 {
        Err(api_error(FORBIDDEN, "cannot delete access level with associated users"))
    } else {
        Ok(())
    }
}

/// The answer to an access level deletion: an error when no row was deleted.
pub fn access_level_deletion_response(rows_affected: u64) -> (r: Result<String, ApiError>)
    ensures
        rows_affected >= 1 ==> (r matches Ok(m) && m@ == "Access level deleted successfully"@),
        rows_affected < 1 ==> (r matches Err(e) && is_error(
            e,
            BAD_REQUEST,
            "Access level not exist or does not belong to the request user organization"@,
        )),
{
    if rows_affected < 1 {
        Err(api_error(BAD_REQUEST, "Access level not exist or does not belong to the request user organization"))
    } else {
        Ok("Access level deleted successfully".to_string())
    }
}

/// Whether a user's access level must be written: only when it changes.
/// The user may not change their own access level.
pub fn decide_user_access_level_change(
    request_user_id: i32,
    target_user_id: i32,
    target_access_level: Option<i32>,
    new_access_level: Option<i32>,
) -> (r: Result<bool, ApiError>)
    ensures
        request_user_id == target_user_id ==> (r matches Err(e) && is_error(
            e,
            FORBIDDEN,
            "cannot change your own access level"@,
        )),
        request_user_id != target_user_id && target_access_level is None ==> (r matches Err(e)
            && is_error(e, NOT_FOUND, "user not found"@)),
        request_user_id != target_user_id && target_access_level is Some && new_access_level is None
            ==> (r matches Err(e) && is_error(e, NOT_FOUND, "new access level not found"@)),
        request_user_id != target_user_id && target_access_level is Some && new_access_level is Some
            ==> r == Ok::<bool, ApiError>(target_access_level != new_access_level),
{
    if request_user_id == target_user_id {
        return Err(api_error(FORBIDDEN, "cannot change your own access level"));
    }
    let current = match target_access_level {
        None => { return Err(api_error(NOT_FOUND, "user not found")); },
        Some(c) => c,
    };
    let next = match new_access_level {
        None => { return Err(api_error(NOT_FOUND, "new access level not found")); },
        Some(n) => n,
    };
    Ok(current != next)
}

} // verus!
