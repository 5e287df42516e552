//! Permissions an access level grants.

use vstd::prelude::*;
use crate::error_codes::{MISSING_PERMISSIONS, ORGANIZATION_BLOCKED};
use crate::responses::{api_error, is_error, ApiError, FORBIDDEN, UNAUTHORIZED};

verus! {

/// An action on the organization's resources that an access level may grant.
#[derive(Clone, Copy, Debug, PartialEq, Eq)]
pub enum Permission {
    CreateSimCard,
    UpdateSimCard,
    DeleteSimCard,
    CreateTracker,
    UpdateTracker,
    DeleteTracker,
    CreateVehicle,
    UpdateVehicle,
    UpdateOrganization,
    ManageUserAccessLevels,
    ListUserSessions,
}

/// The stored names of all permissions, in declaration order.
pub open spec fn permission_names() -> Seq<Seq<char>> {
    seq![
        "CREATE_SIM_CARD"@,
        "UPDATE_SIM_CARD"@,
        "DELETE_SIM_CARD"@,
        "CREATE_TRACKER"@,
        "UPDATE_TRACKER"@,
        "DELETE_TRACKER"@,
        "CREATE_VEHICLE"@,
        "UPDATE_VEHICLE"@,
        "UPDATE_ORGANIZATION"@,
        "MANAGE_USER_ACCESS_LEVELS"@,
        "LIST_USER_SESSIONS"@,
    ]
}

impl Permission {
    /// Position of the permission in declaration order.
    pub open spec fn index(self) -> int {
        match self {
            Permission::CreateSimCard => 0,
            Permission::UpdateSimCard => 1,
            Permission::DeleteSimCard => 2,
            Permission::CreateTracker => 3,
            Permission::UpdateTracker => 4,
            Permission::DeleteTracker => 5,
            Permission::CreateVehicle => 6,
            Permission::UpdateVehicle => 7,
            Permission::UpdateOrganization => 8,
            Permission::ManageUserAccessLevels => 9,
            Permission::ListUserSessions => 10,
        }
    }

    /// The name the permission is stored under.
    pub fn name(&self) -> (n: &'static str)
        ensures
            n@ == permission_names()[self.index()],
    {
        match self {
            Permission::CreateSimCard => "CREATE_SIM_CARD",
            Permission::UpdateSimCard => "UPDATE_SIM_CARD",
            Permission::DeleteSimCard => "DELETE_SIM_CARD",
            Permission::CreateTracker => "CREATE_TRACKER",
            Permission::UpdateTracker => "UPDATE_TRACKER",
            Permission::DeleteTracker => "DELETE_TRACKER",
            Permission::CreateVehicle => "CREATE_VEHICLE",
            Permission::UpdateVehicle => "UPDATE_VEHICLE",
            Permission::UpdateOrganization => "UPDATE_ORGANIZATION",
            Permission::ManageUserAccessLevels => "MANAGE_USER_ACCESS_LEVELS",
            Permission::ListUserSessions => "LIST_USER_SESSIONS",
        }
    }

    /// The names of all permissions, as granted to an organization's root
    /// access level.
    pub fn to_string_vec() -> (v: Vec<String>)
        ensures
            v@.len() == permission_names().len(),
            forall|i: int| 0 <= i < v@.len() ==> #[trigger] v@[i]@ == permission_names()[i],
    {
        let all = [
            Permission::CreateSimCard,
            Permission::UpdateSimCard,
            Permission::DeleteSimCard,
            Permission::CreateTracker,
            Permission::UpdateTracker,
            Permission::DeleteTracker,
            Permission::CreateVehicle,
            Permission::UpdateVehicle,
            Permission::UpdateOrganization,
            Permission::ManageUserAccessLevels,
            Permission::ListUserSessions,
        ];
        let mut v: Vec<String> = Vec::new();
        let mut i: usize = 0;
        while i < 11
            invariant
                i <= 11,
                v@.len() == i,
                all@.len() == 11,
                forall|k: int| 0 <= k < 11 ==> (#[trigger] all@[k]).index() == k,
                forall|k: int| 0 <= k < i ==> #[trigger] v@[k]@ == permission_names()[k],
            decreases 11 - i,
        {
            let name = all[i].name();
            v.push(name.to_string());
            i = i + 1;
        }
        v
    }
}

/// Whether the names `granted` include every permission of `required`.
pub open spec fn grants_all(granted: Seq<Seq<char>>, required: Seq<Permission>) -> bool {
    forall|i: int| 0 <= i < required.len() ==> granted.contains(#[trigger] permission_names()[required[i].index()])
}

fn grants(granted: &Vec<String>, name: &str) -> (b: bool)
    ensures
        b == granted@.map_values(|g: String| g@).contains(name@),
{
    let wanted = name.to_string();
    let mut i: usize = 0;
    while i < granted.len()
        invariant
            i <= granted@.len(),
            wanted@ == name@,
            forall|k: int| 0 <= k < i ==> granted@[k]@ != name@,
        decreases granted.len() - i,
    {
        let same = granted[i] == wanted;
        if same {
            proof {
                assert(granted@.map_values(|g: String| g@)[i as int] == name@);
            }
            return true;
        }
        i = i + 1;
    }
    proof {
        let v = granted@.map_values(|g: String| g@);
        assert forall|k: int| 0 <= k < v.len() implies v[k] != name@ by {
            assert(v[k] == granted@[k]@);
        }
    }
    false
}

/// Checks that an access level granting the permission names `granted`
/// allows an action that needs `required`; otherwise the request is
/// answered `403 MISSING_PERMISSIONS`.
pub fn check_permissions(granted: &Vec<String>, required: &Vec<Permission>) -> (r: Result<(), ApiError>)
    ensures
        r is Ok <==> grants_all(granted@.map_values(|g: String| g@), required@),
        r matches Err(e) ==> is_error(e, FORBIDDEN, MISSING_PERMISSIONS@),
{
    let ghost names = granted@.map_values(|g: String| g@);
    let mut i: usize = 0;
    while i < required.len()
        invariant
            i <= required@.len(),
            names == granted@.map_values(|g: String| g@),
            forall|k: int| 0 <= k < i ==> names.contains(#[trigger] permission_names()[required@[k].index()]),
        decreases required.len() - i,
    {
        let name = required[i].name();
        if !grants(granted, name) {
            return Err(api_error(FORBIDDEN, MISSING_PERMISSIONS));
        }
        i = i + 1;
    }
    Ok(())
}

/// Refuses the requests of a user whose organization is blocked with
/// `401 ORGANIZATION_BLOCKED`; `blocked` is whether the user's
/// organization is blocked, if the user belongs to one.
pub fn check_organization_access(blocked: Option<bool>) -> (r: Result<(), ApiError>)
    ensures
        r is Err <==> blocked == Some(true),
        r matches Err(e) ==> is_error(e, UNAUTHORIZED, ORGANIZATION_BLOCKED@),
{
    match blocked {
        Some(true) => Err(api_error(UNAUTHORIZED, ORGANIZATION_BLOCKED)),
        _ => Ok(()),
    }
}

} // verus!
