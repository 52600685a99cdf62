//! Plain response envelopes handed back to the HTTP layer.

use vstd::prelude::*;
use crate::errors::AppError;

verus! {

/// Standard API response envelope.
#[derive(Debug)]
pub struct ApiResponse<T> {
    pub code: i32,
    pub message: String,
    pub data: Option<T>,
}

impl<T> ApiResponse<T> {
    /// A success envelope carrying `data`.
    pub fn success(data: T) -> (r: Self)
        ensures
            r.code == 0,
            r.message@ == "success"@,
            r.data == Some(data),
    {
        ApiResponse { code: 0, message: String::from_str("success"), data: Some(data) }
    }

    /// A success envelope without a payload.
    pub fn success_empty() -> (r: ApiResponse<()>)
        ensures
            r.code == 0,
            r.message@ == "success"@,
            r.data is None,
    {
        ApiResponse { code: 0, message: String::from_str("success"), data: None }
    }

    /// An error envelope carrying `code` and `message`.
    pub fn error(code: i32, message: &str) -> (r: ApiResponse<()>)
        ensures
            r.code == code,
            r.message@ == message@,
            r.data is None,
    {
        ApiResponse { code, message: message.to_owned(), data: None }
    }
}

/// The number of pages needed for `total` items at `limit` items per page:
/// zero when either quantity is non-positive, otherwise the quotient
/// rounded up, saturated at `u32::MAX`.
pub open spec fn spec_total_pages(total: int, limit: int) -> int {
    if total <= 0 || limit <= 0 {
        0
    } else if (total + limit - 1) / limit > u32::MAX {
        u32::MAX as int
    } else {
        (total + limit - 1) / limit
    }
}

/// Paged response envelope.
#[derive(Debug)]
pub struct PaginatedResponse<T> {
    pub items: Vec<T>,
    pub total: i64,
    pub page: u32,
    pub limit: u32,
    pub total_pages: u32,
}

impl<T> PaginatedResponse<T> {
    pub fn new(items: Vec<T>, total: i64, page: u32, limit: u32) -> (r: Self)
        ensures
            r.items == items,
            r.total == total,
            r.page == page,
            r.limit == limit,
            r.total_pages == spec_total_pages(total as int, limit as int),
    {
        let total_pages: u32 = if total <= 0 || limit == 0 {
            0
        } else {
            let q: u64 = ((total as u64) + (limit as u64) - 1) / (limit as u64);
            if q > u32::MAX as u64 {
                u32::MAX
            } else {
                q as u32
            }
        };
        PaginatedResponse { items, total, page, limit, total_pages }
    }
}

/// Convenience constructor for a success envelope.
pub fn success<T>(data: T) -> (r: ApiResponse<T>)
    ensures
        r.code == 0,
        r.message@ == "success"@,
        r.data == Some(data),
{
    ApiResponse::success(data)
}

/// Convenience constructor for a success envelope without a payload.
pub fn success_empty() -> (r: ApiResponse<()>)
    ensures
        r.code == 0,
        r.message@ == "success"@,
        r.data is None,
{
    ApiResponse::<()>::success_empty()
}

/// Convenience constructor for an error envelope.
pub fn error(code: i32, message: &str) -> (r: ApiResponse<()>)
    ensures
        r.code == code,
        r.message@ == message@,
        r.data is None,
{
    ApiResponse::<()>::error(code, message)
}

/// The error envelope a failed operation is reported as: the coarse
/// error categories of the taxonomy, with no internal detail beyond the
/// carried message.
pub fn error_response(err: &AppError) -> (r: ApiResponse<()>)
    ensures
        r.data is None,
        match err {
            AppError::BlockchainError(m) => r.code == 502 && r.message@ == "Blockchain error: "@
                + m@,
            AppError::ValidationError(m) => r.code == 400 && r.message@ == "Validation error: "@
                + m@,
            AppError::NotEnabled => r.code == 503 && r.message@
                == "blockchain services are not enabled"@,
        },
{
    match err {
        AppError::BlockchainError(m) => {
            let mut text = String::from_str("Blockchain error: ");
            text.append(m.as_str());
            ApiResponse { code: 502, message: text, data: None }
        }
        AppError::ValidationError(m) => {
            let mut text = String::from_str("Validation error: ");
            text.append(m.as_str());
            ApiResponse { code: 400, message: text, data: None }
        }
        AppError::NotEnabled => ApiResponse {
            code: 503,
            message: String::from_str("blockchain services are not enabled"),
            data: None,
        },
    }
}

/// Convenience constructor for a paged success envelope.
pub fn paginated<T>(items: Vec<T>, total: i64, page: u32, limit: u32) -> (r: ApiResponse<
    PaginatedResponse<T>,
>)
    ensures
        r.code == 0,
        r.message@ == "success"@,
        r.data matches Some(p) && p.items == items && p.total == total && p.page == page
            && p.limit == limit && p.total_pages == spec_total_pages(total as int, limit as int),
{
    ApiResponse::success(PaginatedResponse::new(items, total, page, limit))
}

} // verus!
