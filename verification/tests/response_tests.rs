use solcore::response::{error, success, success_empty, ApiResponse, PaginatedResponse};

#[test]
fn test_success_response() {
    let response = ApiResponse::success("test data");
    assert_eq!(response.code, 0);
    assert_eq!(response.message, "success");
    assert_eq!(response.data, Some("test data"));
}

#[test]
fn test_error_response() {
    let response = ApiResponse::<()>::error(400, "Bad request");
    assert_eq!(response.code, 400);
    assert_eq!(response.message, "Bad request");
    assert_eq!(response.data, None);
}

#[test]
fn test_paginated_response() {
    let items = vec![1, 2, 3];
    let response = PaginatedResponse::new(items, 10, 1, 3);
    assert_eq!(response.total, 10);
    assert_eq!(response.page, 1);
    assert_eq!(response.limit, 3);
    assert_eq!(response.total_pages, 4);
}

#[test]
fn paginated_zero_limit_has_no_pages() {
    let response = PaginatedResponse::new(vec![0u8; 0], 10, 1, 0);
    assert_eq!(response.total_pages, 0);
}

#[test]
fn paginated_negative_total_has_no_pages() {
    let response = PaginatedResponse::new(vec![0u8; 0], -5, 1, 10);
    assert_eq!(response.total_pages, 0);
}

#[test]
fn free_helpers_build_envelopes() {
    let ok = success(17u32);
    assert_eq!(ok.code, 0);
    assert_eq!(ok.data, Some(17u32));
    let empty = success_empty();
    assert_eq!(empty.code, 0);
    assert!(empty.data.is_none());
    let err = error(502, "upstream failure");
    assert_eq!(err.code, 502);
    assert_eq!(err.message, "upstream failure");
}
