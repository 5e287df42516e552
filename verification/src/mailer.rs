//! Emails sent through the mailer service: links, titles and template
//! replacements of the password recovery and address confirmation emails.

use vstd::prelude::*;

verus! {

/// Message broker queue of the mailer service's requests.
pub const MAILER_QUEUE: &'static str = "mailer";

/// Mailer operation that sends an email.
pub const OP_SEND_EMAIL: &'static str = "sendEmail";

/// Who an address confirmation email is for.
#[derive(Clone, Copy, Debug, PartialEq, Eq)]
pub enum ConfirmEmailRecipientType {
    User,
    Organization,
}

/// What varies in an email: the frontend page its link opens, the query of
/// that link, and the template, subject and title.
#[derive(Clone, Debug)]
pub struct EmailContent {
    pub link_path: String,
    pub link_query: String,
    pub subject: String,
    pub template: String,
}

/// The path of an email template file.
pub fn template_path(template: &str) -> (p: String)
    ensures
        p@ == "templates/"@ + template@ + ".hbs"@,
{
    let mut p = "templates/".to_string();
    p.append(template);
    p.append(".hbs");
    p
}

/// The password recovery email for a recovery token.
pub fn recover_password_email(token: &str) -> (c: EmailContent)
    ensures
        c.link_path@ == "auth/change-password"@,
        c.link_query@ == "token="@ + token@,
        c.subject@ == "Rastercar: recover password"@,
        c.template@ == "recover-password"@,
{
    let mut query = "token=".to_string();
    query.append(token);
    EmailContent {
        link_path: "auth/change-password".to_string(),
        link_query: query,
        subject: "Rastercar: recover password".to_string(),
        template: "recover-password".to_string(),
    }
}

/// The address confirmation email for a confirmation token, with the
/// title it greets the recipient with.
pub fn confirm_email_address_email(token: &str, recipient: ConfirmEmailRecipientType) -> (r: (EmailContent, String))
    ensures
        r.0.link_path@ == "auth/confirm-email-address"@,
        r.0.subject@ == "Rastercar: confirm email"@,
        r.0.template@ == "confirm-email"@,
        recipient == ConfirmEmailRecipientType::User ==> r.0.link_query@ == "token="@ + token@ && r.1@
            == "Thanks for registering a Rastercar account"@,
        recipient == ConfirmEmailRecipientType::Organization ==> r.0.link_query@ == "token="@ + token@
            + "&confirmingFor=organization"@ && r.1@ == "Thanks for creating your rastercar organization"@,
{
    let mut query = "token=".to_string();
    query.append(token);
    let title = match recipient {
        ConfirmEmailRecipientType::User => "Thanks for registering a Rastercar account".to_string(),
        ConfirmEmailRecipientType::Organization => {
            query.append("&confirmingFor=organization");
            "Thanks for creating your rastercar organization".to_string()
        },
    };
    (
        EmailContent {
            link_path: "auth/confirm-email-address".to_string(),
            link_query: query,
            subject: "Rastercar: confirm email".to_string(),
            template: "confirm-email".to_string(),
        },
        title,
    )
}

/// Replacements of the password recovery email template.
#[derive(Clone, Debug)]
pub struct RecoverPasswordReplacements {
    pub username: String,
    pub reset_password_link: String,
}

impl RecoverPasswordReplacements {
    /// The template variables and their values.
    pub fn into_pairs(self) -> (p: Vec<(String, String)>)
        ensures
            p@.len() == 2,
            p@[0].0@ == "username"@ && p@[0].1 == self.username,
            p@[1].0@ == "resetPasswordLink"@ && p@[1].1 == self.reset_password_link,
    {
        let mut p: Vec<(String, String)> = Vec::new();
        p.push(("username".to_string(), self.username));
        p.push(("resetPasswordLink".to_string(), self.reset_password_link));
        p
    }
}

/// Replacements of the address confirmation email template.
#[derive(Clone, Debug)]
pub struct ConfirmEmailReplacements {
    pub title: String,
    pub confirmation_link: String,
}

impl ConfirmEmailReplacements {
    /// The template variables and their values.
    pub fn into_pairs(self) -> (p: Vec<(String, String)>)
        ensures
            p@.len() == 2,
            p@[0].0@ == "title"@ && p@[0].1 == self.title,
            p@[1].0@ == "confirmationLink"@ && p@[1].1 == self.confirmation_link,
    {
        let mut p: Vec<(String, String)> = Vec::new();
        p.push(("title".to_string(), self.title));
        p.push(("confirmationLink".to_string(), self.confirmation_link));
        p
    }
}

} // verus!
