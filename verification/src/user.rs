//! Users: payloads, profile updates and where profile pictures are stored.

use vstd::prelude::*;
use crate::auth::{check_password, check_username, password_violations, username_violations};
use crate::multipart::{filename_from_img, image_extension_spec, is_upload_name, opt_view, UploadedFile};
use crate::responses::{api_error, is_error, ApiError, BAD_REQUEST};
use crate::s3::S3Key;
use crate::text::{decimal, text_with_int, text_with_ints};
use crate::validation::{check_email, check_length, length_ok, rule, valid_email, Collector, Validate, Violations, ViolationView};

verus! {

/// Filters of a user listing.
#[derive(Clone, Debug)]
pub struct ListUsersDto {
    /// Search by email.
    pub email: Option<String>,
    /// Only users of this access level (ignored unless positive).
    pub access_level_id: Option<i32>,
}

impl Validate for ListUsersDto {
    open spec fn violations(&self) -> Seq<ViolationView> {
        Seq::<ViolationView>::empty()
    }

    fn validate(&self) -> (r: Result<(), Violations>) {
        Collector::new().finish()
    }
}

impl ListUsersDto {
    /// The access level to filter by: only a positive id filters.
    pub fn access_level_filter(&self) -> (f: Option<i32>)
        ensures
            f == match self.access_level_id {
                Some(id) => if id > 0 { Some(id) } else { None },
                None => None,
            },
    {
        match self.access_level_id {
            Some(id) => if id > 0 { Some(id) } else { None },
            None => None,
        }
    }
}

/// Payload to update the request user: absent fields are left as they are;
/// `description: Some(None)` clears the description.
#[derive(Clone, Debug)]
pub struct UpdateUserDto {
    pub email: Option<String>,
    pub username: Option<String>,
    pub description: Option<Option<String>>,
}

impl Validate for UpdateUserDto {
    open spec fn violations(&self) -> Seq<ViolationView> {
        (match self.email {
            Some(e) => rule(valid_email(e@), "email", "email", None),
            None => Seq::<ViolationView>::empty(),
        }) + (match self.username {
            Some(u) => username_violations("username", u@),
            None => Seq::<ViolationView>::empty(),
        }) + (match self.description {
            Some(Some(d)) => rule(length_ok(d@, None, Some(500)), "description", "length", None),
            _ => Seq::<ViolationView>::empty(),
        })
    }

    fn validate(&self) -> (r: Result<(), Violations>) {
        let mut c = Collector::new();
        match &self.email {
            Some(e) => c.check(check_email(e.as_str()), "email", "email", None),
            None => {},
        }
        match &self.username {
            Some(u) => check_username(&mut c, "username", u.as_str()),
            None => {},
        }
        match &self.description {
            Some(Some(d)) => c.check(check_length(d.as_str(), None, Some(500)), "description", "length", None),
            _ => {},
        }
        assert(c.seen() =~= self.violations());
        c.finish()
    }
}

/// The editable profile of a user.
#[derive(Clone, Debug)]
pub struct UserProfile {
    pub username: String,
    pub email: String,
    pub description: Option<String>,
}

impl UserProfile {
    /// The profile after an update: each given field replaces the old value.
    pub fn apply(self, update: UpdateUserDto) -> (p: UserProfile)
        ensures
            p.description == match update.description { Some(d) => d, None => self.description },
            p.username == match update.username { Some(u) => u, None => self.username },
            p.email == match update.email { Some(e) => e, None => self.email },
    {
        let mut p = self;
        if let Some(d) = update.description {
            p.description = d;
        }
        if let Some(u) = update.username {
            p.username = u;
        }
        if let Some(e) = update.email {
            p.email = e;
        }
        p
    }
}

/// Payload to change the request user's password.
#[derive(Clone, Debug)]
pub struct ChangePasswordDto {
    pub old_password: String,
    pub new_password: String,
}

impl Validate for ChangePasswordDto {
    open spec fn violations(&self) -> Seq<ViolationView> {
        password_violations("new_password", self.new_password@, false)
    }

    fn validate(&self) -> (r: Result<(), Violations>) {
        let mut c = Collector::new();
        check_password(&mut c, "new_password", self.new_password.as_str(), false);
        c.finish()
    }
}

/// The storage folder of a user's files: under the organization for users
/// bound to one.
pub open spec fn user_folder_spec(user_id: int, org_id: Option<i32>) -> Seq<char> {
    match org_id {
        Some(o) => "organization/"@ + decimal(o as int) + "/user/"@ + decimal(user_id),
        None => "user/"@ + decimal(user_id),
    }
}

pub fn user_folder(user_id: i32, org_id: Option<i32>) -> (f: String)
    ensures
        f@ == user_folder_spec(user_id as int, org_id),
{
    proof {
        reveal_strlit("");
    }
    match org_id {
        Some(o) => text_with_ints("organization/", o as i64, "/user/", user_id as i64, ""),
        None => text_with_int("user/", user_id as i64, ""),
    }
}

/// Where a new profile picture of a user is stored: a `profile-picture_`
/// name in the user's folder. A file that is not an accepted image is
/// refused as the upload check refuses it; an accepted image always gets
/// a key.
pub fn profile_picture_key(user_id: i32, org_id: Option<i32>, image: &UploadedFile) -> (r: Result<S3Key, ApiError>)
    ensures
        image_extension_spec(opt_view(&image.file_name)) matches Err((status, msg)) ==> (r matches Err(e)
            && is_error(e, status, msg)),
        r matches Ok(k) ==> k.folder@ == user_folder_spec(user_id as int, org_id)
            && is_upload_name("profile-picture"@, opt_view(&image.file_name), k.filename@),
        image_extension_spec(opt_view(&image.file_name)) is Ok ==> r is Ok,
{
    let filename = filename_from_img("profile-picture", image)?;
    Ok(S3Key { folder: user_folder(user_id, org_id), filename })
}

/// The answer to a profile picture removal.
pub fn profile_picture_removal_message(had_picture: bool) -> (m: &'static str)
    ensures
        had_picture ==> m@ == "profile picture removed successfully"@,
        !had_picture ==> m@ == "user does not have a profile picture to remove"@,
{
    if had_picture {
        "profile picture removed successfully"
    } else {
        "user does not have a profile picture to remove"
    }
}

/// Payload to update the request user's organization: absent fields are
/// left as they are.
#[derive(Clone, Debug)]
pub struct UpdateOrganizationDto {
    pub name: Option<String>,
    pub billing_email: Option<String>,
}

impl Validate for UpdateOrganizationDto {
    open spec fn violations(&self) -> Seq<ViolationView> {
        match self.billing_email {
            Some(e) => rule(valid_email(e@), "billing_email", "email", None),
            None => Seq::<ViolationView>::empty(),
        }
    }

    fn validate(&self) -> (r: Result<(), Violations>) {
        let mut c = Collector::new();
        match &self.billing_email {
            Some(e) => c.check(check_email(e.as_str()), "billing_email", "email", None),
            None => {
                assert(c.seen() =~= c.seen() + Seq::<ViolationView>::empty());
            },
        }
        c.finish()
    }
}

/// The editable fields of an organization.
#[derive(Clone, Debug)]
pub struct OrganizationProfile {
    pub name: String,
    pub billing_email: String,
}

impl OrganizationProfile {
    /// The organization after an update: each given field replaces the old value.
    pub fn apply(self, update: UpdateOrganizationDto) -> (p: OrganizationProfile)
        ensures
            p.name == match update.name { Some(n) => n, None => self.name },
            p.billing_email == match update.billing_email { Some(e) => e, None => self.billing_email },
    {
        let mut p = self;
        if let Some(n) = update.name {
            p.name = n;
        }
        if let Some(e) = update.billing_email {
            p.billing_email = e;
        }
        p
    }
}

/// Only users bound to an organization can update it.
pub fn check_org_update(has_org: bool) -> (r: Result<(), ApiError>)
    ensures
        has_org <==> r is Ok,
        r matches Err(e) ==> is_error(
            e,
            BAD_REQUEST,
            "cannot update org because user does not belong to one"@,
        ),
{
    if has_org {
        Ok(())
    } else {
        Err(api_error(BAD_REQUEST, "cannot update org because user does not belong to one"))
    }
}

} // verus!
