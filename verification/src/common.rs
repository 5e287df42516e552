//! Payloads and helpers shared by all routes: email and token payloads,
//! pagination parameters and results, validated request payloads and the
//! organization of the request user.

use vstd::prelude::*;
use crate::error_text::{fields_of, is_errors_text, render_violations};
use crate::multipart::UploadedFile;
use crate::responses::{api_error, api_error_string, is_error, ApiError, BAD_REQUEST};
use crate::validation::{
    check_email, check_length, length_ok, range_ok, rule, valid_email, Collector, Validate,
    Violations, ViolationView,
};

verus! {

/// A payload holding an email address.
#[derive(Clone, Debug)]
pub struct EmailAddress {
    pub email: String,
}

impl Validate for EmailAddress {
    open spec fn violations(&self) -> Seq<ViolationView> {
        rule(valid_email(self.email@), "email", "email", None)
    }

    fn validate(&self) -> (r: Result<(), Violations>) {
        let mut c = Collector::new();
        c.check(check_email(self.email.as_str()), "email", "email", None);
        c.finish()
    }
}

/// A payload holding a token of at least 5 characters.
#[derive(Clone, Debug)]
pub struct Token {
    pub token: String,
}

impl Validate for Token {
    open spec fn violations(&self) -> Seq<ViolationView> {
        rule(length_ok(self.token@, Some(5), None), "token", "length", None)
    }

    fn validate(&self) -> (r: Result<(), Violations>) {
        let mut c = Collector::new();
        c.check(check_length(self.token.as_str(), Some(5), None), "token", "length", None);
        c.finish()
    }
}

/// The page requested when none is given.
pub fn default_page() -> (p: u64)
    ensures
        p == 1,
{
    1
}

/// The page size used when none is given.
pub fn default_page_size() -> (p: u64)
    ensures
        p == 10,
{
    10
}

/// Pagination parameters of a list request: a 1-indexed page (1 to
/// 99999) and a page size (1 to 100).
#[derive(Clone, Copy, Debug, PartialEq, Eq)]
pub struct Pagination {
    pub page: u64,
    pub page_size: u64,
}

impl Pagination {
    /// The parameters when the request gives none.
    pub fn defaults() -> (p: Pagination)
        ensures
            p.page == 1 && p.page_size == 10,
    {
        Pagination { page: default_page(), page_size: default_page_size() }
    }

    /// The 0-indexed page to fetch.
    pub fn page_index(&self) -> (i: u64)
        requires
            self.page >= 1,
        ensures
            i == self.page - 1,
    {
        self.page - 1
    }
}

impl Validate for Pagination {
    open spec fn violations(&self) -> Seq<ViolationView> {
        rule(range_ok(self.page as int, Some(1), Some(99999)), "page", "range", None) + rule(
            range_ok(self.page_size as int, Some(1), Some(100)),
            "page_size",
            "range",
            None,
        )
    }

    fn validate(&self) -> (r: Result<(), Violations>) {
        let mut c = Collector::new();
        c.check(1 <= self.page && self.page <= 99999, "page", "range", None);
        c.check(1 <= self.page_size && self.page_size <= 100, "page_size", "range", None);
        c.finish()
    }
}

/// A page of records with the pagination metadata of the query.
#[derive(Clone, Debug)]
pub struct PaginationResult<T> {
    /// 1-indexed page number.
    pub page: u64,
    /// Total pages available for the query.
    pub page_count: u64,
    /// Total items available for the query.
    pub item_count: u64,
    /// Records per page.
    pub page_size: u64,
    /// The records of the page.
    pub records: Vec<T>,
}

impl<T> PaginationResult<T> {
    /// The result for the records of the requested page, given the item and
    /// page counts of the whole query.
    pub fn new(pagination: Pagination, records: Vec<T>, item_count: u64, page_count: u64) -> (r: PaginationResult<T>)
        ensures
            r.page == pagination.page,
            r.page_size == pagination.page_size,
            r.item_count == item_count,
            r.page_count == page_count,
            r.records@ == records@,
    {
        PaginationResult { page: pagination.page, page_count, item_count, page_size: pagination.page_size, records }
    }
}

/// The `ILIKE` pattern of a search filter: the text anywhere in the
/// column. An absent or empty filter does not filter.
pub open spec fn search_pattern_spec(filter: Option<Seq<char>>) -> Option<Seq<char>> {
    match filter {
        Some(s) => if s.len() > 0 { Some(seq!['%'] + s + seq!['%']) } else { None },
        None => None,
    }
}

/// Whether `pattern` matches `text` anywhere in a column: a `%`, the text,
/// and a `%`.
pub open spec fn is_anywhere_pattern(pattern: Seq<char>, text: Seq<char>) -> bool {
    &&& pattern.len() == text.len() + 2
    &&& pattern[0] == '%'
    &&& pattern[pattern.len() - 1] == '%'
    &&& pattern.subrange(1, pattern.len() - 1) == text
}

/// A non-empty search filter is looked for anywhere in the column: its
/// pattern is the filter between two `%`; an empty or absent filter gives
/// no pattern.
pub proof fn lemma_search_pattern_anywhere(s: Seq<char>)
    ensures
        s.len() > 0 ==> (search_pattern_spec(Some(s)) matches Some(q) && is_anywhere_pattern(q, s)),
        s.len() == 0 ==> search_pattern_spec(Some(s)) is None,
        search_pattern_spec(None) is None,
{
    if s.len() > 0 {
        let q = seq!['%'] + s + seq!['%'];
        assert(q.subrange(1, q.len() - 1) =~= s);
    }
}

pub fn search_pattern(filter: &Option<String>) -> (p: Option<String>)
    ensures
        search_pattern_spec(match filter { Some(s) => Some(s@), None => None }) == match p {
            Some(q) => Some(q@),
            None => None::<Seq<char>>,
        },
        match filter {
            Some(s) => if s@.len() > 0 { (p matches Some(q) && is_anywhere_pattern(q@, s@)) } else { p is None },
            None => p is None,
        },
{
    match filter {
        Some(s) => {
            if s.as_str().unicode_len() > 0 {
                let mut q = "%".to_string();
                q.append(s.as_str());
                q.append("%");
                proof {
                    reveal_strlit("%");
                    assert(q@ =~= seq!['%'] + s@ + seq!['%']);
                    assert(q@.subrange(1, q@.len() - 1) =~= s@);
                }
                Some(q)
            } else {
                None
            }
        },
        None => None,
    }
}

// ------------------------------------------------------------------
// Validated payloads

/// Whether `e` is the answer to a payload that broke the rules
/// `violations`: `400 Bad Request` with the violations printed as
/// `validator` prints them.
pub open spec fn is_refusal(violations: Seq<ViolationView>, e: ApiError) -> bool {
    e.0 == BAD_REQUEST && is_errors_text(fields_of(violations), e.1@)
}

/// The response to a payload that broke validation rules.
pub fn validation_error_response(errors: &Violations) -> (r: ApiError)
    ensures
        is_refusal(errors@, r),
{
    api_error_string(BAD_REQUEST, render_violations(&errors.violations))
}

/// Accepts a payload that passes its validation rules; a payload that
/// breaks some is answered with `400 Bad Request`.
pub fn accept_payload<T: Validate>(payload: T) -> (r: Result<T, ApiError>)
    ensures
        payload.violations().len() == 0 ==> r == Ok::<T, ApiError>(payload),
        payload.violations().len() > 0 ==> (r matches Err(e) && is_refusal(payload.violations(), e)),
{
    match payload.validate() {
        Ok(()) => Ok(payload),
        Err(errors) => Err(validation_error_response(&errors)),
    }
}

/// A query string payload that passed validation.
pub struct ValidatedQuery<T>(pub T);

/// A JSON body that passed validation.
pub struct ValidatedJson<T>(pub T);

/// A `multipart/form-data` body that passed validation.
pub struct ValidatedMultipart<T>(pub T);

impl<T: Validate> ValidatedQuery<T> {
    /// Wraps a query payload if it passes validation.
    pub fn from_payload(payload: T) -> (r: Result<Self, ApiError>)
        ensures
            payload.violations().len() == 0 ==> (r matches Ok(v) && v.0 == payload),
            payload.violations().len() > 0 ==> (r matches Err(e) && is_refusal(payload.violations(), e)),
    {
        match accept_payload(payload) {
            Ok(p) => Ok(ValidatedQuery(p)),
            Err(e) => Err(e),
        }
    }
}

impl<T: Validate> ValidatedJson<T> {
    /// Wraps a JSON payload if it passes validation.
    pub fn from_payload(payload: T) -> (r: Result<Self, ApiError>)
        ensures
            payload.violations().len() == 0 ==> (r matches Ok(v) && v.0 == payload),
            payload.violations().len() > 0 ==> (r matches Err(e) && is_refusal(payload.violations(), e)),
    {
        match accept_payload(payload) {
            Ok(p) => Ok(ValidatedJson(p)),
            Err(e) => Err(e),
        }
    }
}

impl<T: Validate> ValidatedMultipart<T> {
    /// Wraps a multipart payload if it passes validation.
    pub fn from_payload(payload: T) -> (r: Result<Self, ApiError>)
        ensures
            payload.violations().len() == 0 ==> (r matches Ok(v) && v.0 == payload),
            payload.violations().len() > 0 ==> (r matches Err(e) && is_refusal(payload.violations(), e)),
    {
        match accept_payload(payload) {
            Ok(p) => Ok(ValidatedMultipart(p)),
            Err(e) => Err(e),
        }
    }
}

/// A `multipart/form-data` body holding a single image field, `image`.
#[derive(Clone, Debug)]
pub struct SingleImageDto {
    pub image: UploadedFile,
}

/// The organization id of the request user.
#[derive(Clone, Copy, Debug, PartialEq, Eq)]
pub struct OrganizationId(pub i32);

impl OrganizationId {
    /// The organization of the request user. `request_user` is the
    /// organization id of the authenticated user, if the request has one;
    /// users not bound to an organization are refused.
    pub fn from_request_user(request_user: Option<Option<i32>>) -> (r: Result<OrganizationId, ApiError>)
        ensures
            match request_user {
                Some(Some(id)) => r == Ok::<OrganizationId, ApiError>(OrganizationId(id)),
                _ => r matches Err(e) && is_error(
                    e,
                    BAD_REQUEST,
                    "route only accessible to organization bound users"@,
                ),
            },
    {
        match request_user {
            Some(Some(id)) => Ok(OrganizationId(id)),
            _ => Err(api_error(BAD_REQUEST, "route only accessible to organization bound users")),
        }
    }
}

} // verus!
