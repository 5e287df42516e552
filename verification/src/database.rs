//! Database-facing helpers: column updates, the classification of database
//! errors into responses, and `LIMIT`/`OFFSET` pagination arithmetic.

use vstd::prelude::*;
use crate::responses::{internal_error_res, is_error, ApiError, SimpleError, INTERNAL_SERVER_ERROR, NOT_FOUND};

verus! {

/// A column value in an update: set to a value, or left as it is.
#[derive(Clone, Debug, PartialEq, Eq)]
pub enum ActiveValue<T> {
    SetTo(T),
    NotSet,
}

/// `NotSet` when there is no value, else `Set` to the value. With nullable
/// columns, `Some(None)` sets the column to NULL while `None` leaves it.
pub open spec fn set_if_some_spec<T>(opt: Option<T>) -> ActiveValue<T> {
    match opt {
        Some(v) => ActiveValue::SetTo(v),
        None => ActiveValue::NotSet,
    }
}

#[verifier::when_used_as_spec(set_if_some_spec)]
pub fn set_if_some<T>(opt: Option<T>) -> (r: ActiveValue<T>)
    ensures
        r == set_if_some_spec(opt),
{
    match opt {
        Some(v) => ActiveValue::SetTo(v),
        None => ActiveValue::NotSet,
    }
}

/// A database error, as far as the responses need to tell errors apart.
#[derive(Clone, Debug, PartialEq, Eq)]
pub enum DbErrorKind {
    /// A record that had to exist was not found.
    RecordNotFound,
    /// An error reported by the database server while running a statement
    /// or query, with or without a Postgres error code.
    Database { has_code: bool },
    /// Any other driver error while running a statement or query.
    Driver,
    /// Any other error.
    Other,
}

/// Wrapper of database errors that turns them into responses without
/// leaking their details.
#[derive(Clone, Debug, PartialEq, Eq)]
pub struct DbError(pub DbErrorKind);

impl DbError {
    /// The response for the error: `404 entity not found` for a missing
    /// record and `500 internal server error` for every other error, so
    /// that no detail of the error reaches the client.
    pub fn into_response(self) -> (r: ApiError)
        ensures
            self.0 == DbErrorKind::RecordNotFound ==> is_error(r, NOT_FOUND, "entity not found"@),
            self.0 != DbErrorKind::RecordNotFound ==> is_error(r, INTERNAL_SERVER_ERROR, "internal server error"@),
    {
        match self.0 {
            DbErrorKind::RecordNotFound => (NOT_FOUND, SimpleError::from_message("entity not found")),
            _ => internal_error_res(),
        }
    }
}

// ------------------------------------------------------------------
// LIMIT / OFFSET pagination

/// Records per page unless set otherwise.
pub const DEFAULT_PER_PAGE: i64 = 10;

/// A query with `LIMIT`/`OFFSET` pagination.
#[derive(Clone, Copy, Debug)]
pub struct Paginated<T> {
    /// The query to run.
    query: T,
    /// The page to fetch.
    page: i64,
    /// Records per page.
    per_page: i64,
    /// Records skipped: `(page - 1) * per_page`.
    offset: i64,
}

impl<T> Paginated<T> {
    pub closed spec fn spec_page(&self) -> i64 {
        self.page
    }

    pub closed spec fn spec_per_page(&self) -> i64 {
        self.per_page
    }

    pub closed spec fn spec_offset(&self) -> i64 {
        self.offset
    }

    pub closed spec fn spec_query(&self) -> T {
        self.query
    }

    /// The offset always matches the page and the page size.
    pub closed spec fn wf(&self) -> bool {
        self.offset == (self.page - 1) * self.per_page
    }

    /// The query.
    pub fn query(&self) -> (q: &T)
        ensures
            *q == self.spec_query(),
    {
        &self.query
    }

    /// The page.
    pub fn page(&self) -> (p: i64)
        ensures
            p == self.spec_page(),
    {
        self.page
    }

    /// The page size.
    pub fn page_size(&self) -> (p: i64)
        ensures
            p == self.spec_per_page(),
    {
        self.per_page
    }

    /// The offset.
    pub fn offset(&self) -> (o: i64)
        ensures
            o == self.spec_offset(),
            self.wf() ==> o == (self.spec_page() - 1) * self.spec_per_page(),
    {
        self.offset
    }

    /// Sets the records per page, keeping the page.
    pub fn per_page(self, per_page: i64) -> (r: Self)
        requires
            self.spec_page() > i64::MIN,
            i64::MIN <= (self.spec_page() - 1) * per_page <= i64::MAX,
        ensures
            r.wf(),
            r.spec_page() == self.spec_page(),
            r.spec_per_page() == per_page,
            r.spec_offset() == (self.spec_page() - 1) * per_page,
            r.spec_query() == self.spec_query(),
    {
        let offset = (self.page - 1) * per_page;
        Paginated { per_page, offset, ..self }
    }
}

/// Paginates a query.
pub trait Paginate: Sized {
    /// The query paginated at `page`, with the default page size.
    fn paginate(self, page: i64) -> (r: Paginated<Self>)
        requires
            page > i64::MIN,
            i64::MIN <= (page - 1) * DEFAULT_PER_PAGE <= i64::MAX,
        ensures
            r.wf(),
            r.spec_page() == page,
            r.spec_per_page() == DEFAULT_PER_PAGE,
            r.spec_offset() == (page - 1) * DEFAULT_PER_PAGE,
            r.spec_query() == self,
    ;
}

impl<T> Paginate for T {
    fn paginate(self, page: i64) -> (r: Paginated<Self>) {
        Paginated { page, query: self, per_page: DEFAULT_PER_PAGE, offset: (page - 1) * DEFAULT_PER_PAGE }
    }
}

/// Pagination metadata of an executed query, with its records.
#[derive(Clone, Debug)]
pub struct PaginationResult<T> {
    /// Page number.
    pub page: i64,
    /// Records skipped: `(page - 1) * records_per_page`.
    pub offset: i64,
    /// Total records available for the query (all pages).
    pub page_count: i64,
    /// Records per page.
    pub page_size: i64,
    /// Records of the page.
    pub records: Vec<T>,
}

impl<T> Paginated<T> {
    /// The result of running the paginated query, given the rows it
    /// returned: each record with the total count of records of the
    /// unpaginated query (the same on every row).
    pub fn load_with_pagination<U>(self, rows: Vec<(U, i64)>) -> (r: PaginationResult<U>)
        ensures
            r.page == self.spec_page(),
            r.offset == self.spec_offset(),
            r.page_size == self.spec_per_page(),
            r.page_count == (if rows@.len() > 0 { rows@[0].1 } else { 0 }),
            r.records@ == rows@.map_values(|row: (U, i64)| row.0),
    {
        let total = if rows.len() > 0 { rows[0].1 } else { 0 };
        let ghost all_rows = rows@;
        let mut records: Vec<U> = Vec::new();
        let mut rest = rows;
        // Move the records out in order.
        let n = rest.len();
        let mut reversed: Vec<(U, i64)> = Vec::new();
        while rest.len() > 0
            invariant
                rest@.len() + reversed@.len() == n,
                n == all_rows.len(),
                forall|k: int| 0 <= k < rest@.len() ==> rest@[k] == all_rows[k],
                forall|k: int| 0 <= k < reversed@.len() ==> reversed@[k] == all_rows[n - 1 - k],
            decreases rest@.len(),
        {
            let row = rest.pop().unwrap();
            reversed.push(row);
        }
        while reversed.len() > 0
            invariant
                reversed@.len() + records@.len() == n,
                n == all_rows.len(),
                forall|k: int| 0 <= k < reversed@.len() ==> reversed@[k] == all_rows[n - 1 - k],
                forall|k: int| 0 <= k < records@.len() ==> records@[k] == all_rows[k].0,
            decreases reversed@.len(),
        {
            let row = reversed.pop().unwrap();
            records.push(row.0);
        }
        assert(records@ =~= all_rows.map_values(|row: (U, i64)| row.0));
        PaginationResult {
            page: self.page,
            offset: self.offset,
            page_count: total,
            page_size: self.per_page,
            records,
        }
    }
}

} // verus!
