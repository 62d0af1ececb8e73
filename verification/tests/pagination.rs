use college_directory::errors::ApiError;
use college_directory::pagination::{
    per_page, total_pages, PageRequest, PaginatedResponse, PaginationInfo, DEFAULT_LIMIT,
    DEFAULT_PAGE, MAX_LIMIT,
};

fn request(page: u32, limit: u32) -> PageRequest {
    PageRequest::new(Some(page), Some(limit)).unwrap()
}

fn names(from: usize, to: usize) -> Vec<String> {
    let mut rows = Vec::new();
    for i in from..=to {
        rows.push(format!("College {:02}", i));
    }
    rows
}

#[test]
fn defaults_are_page_one_and_twelve_rows() {
    assert_eq!(DEFAULT_PAGE, 1);
    assert_eq!(DEFAULT_LIMIT, 12);
    assert_eq!(MAX_LIMIT, 50);
    let request = PageRequest::new(None, None).unwrap();
    assert_eq!(request.page(), 1);
    assert_eq!(request.per_page(), 12);
    assert_eq!(request.limit(), 12);
    assert_eq!(request.offset(), 0);
}

#[test]
fn limit_is_clamped_to_one_and_fifty() {
    assert_eq!(per_page(None), 12);
    assert_eq!(per_page(Some(0)), 1);
    assert_eq!(per_page(Some(1)), 1);
    assert_eq!(per_page(Some(5)), 5);
    assert_eq!(per_page(Some(50)), 50);
    assert_eq!(per_page(Some(51)), 50);
    assert_eq!(per_page(Some(u32::MAX)), 50);
}

#[test]
fn page_zero_is_a_bad_request() {
    let refused = PageRequest::new(Some(0), Some(5));
    assert_eq!(refused, Err(ApiError::BadRequest("page must be at least 1".to_string())));
    assert_eq!(refused.unwrap_err().status_code(), 400);
}

#[test]
fn offset_is_the_rows_of_the_earlier_pages() {
    assert_eq!(request(1, 5).offset(), 0);
    assert_eq!(request(2, 5).offset(), 5);
    assert_eq!(request(3, 12).offset(), 24);
    assert_eq!(request(u32::MAX, 50).offset(), (u32::MAX as i64 - 1) * 50);
    assert_eq!(request(7, 500).offset(), 300);
}

#[test]
fn page_count_rounds_up() {
    assert_eq!(total_pages(0, 5), 1);
    assert_eq!(total_pages(1, 5), 1);
    assert_eq!(total_pages(5, 5), 1);
    assert_eq!(total_pages(6, 5), 2);
    assert_eq!(total_pages(10, 5), 2);
    assert_eq!(total_pages(11, 5), 3);
    assert_eq!(total_pages(12, 5), 3);
    assert_eq!(total_pages(600, 12), 50);
    assert_eq!(total_pages(601, 12), 51);
}

#[test]
fn page_count_is_held_at_the_counters_maximum() {
    assert_eq!(total_pages(i64::MAX, 1), u32::MAX);
    assert_eq!(total_pages(u32::MAX as i64, 1), u32::MAX);
    assert_eq!(total_pages(u32::MAX as i64 + 1, 1), u32::MAX);
    assert_eq!(total_pages(i64::MAX, u32::MAX), 2147483649);
}

#[test]
fn second_page_of_twelve_colleges_by_fives() {
    let request = request(2, 5);
    assert_eq!(request.limit(), 5);
    assert_eq!(request.offset(), 5);
    let rows = names(6, 10);
    let response = PaginatedResponse::assemble(&request, rows, 12).unwrap();
    assert_eq!(response.data, names(6, 10));
    assert_eq!(response.data.len(), 5);
    assert_eq!(
        response.pagination,
        PaginationInfo {
            current_page: 2,
            per_page: 5,
            total: 12,
            total_pages: 3,
            has_next: true,
            has_prev: true,
        }
    );
}

#[test]
fn flags_agree_with_page_and_count_on_every_page() {
    for total in [0i64, 1, 4, 5, 6, 12, 49, 50, 51] {
        for limit in [1u32, 5, 12, 50] {
            let pages = total_pages(total, limit);
            assert!(pages >= 1);
            for page in 1..=pages + 2 {
                let info = PaginationInfo::new(page, limit, total);
                assert_eq!(info.total_pages, pages);
                assert_eq!(info.has_next, page < pages);
                assert_eq!(info.has_prev, page > 1);
                let offset = request(page, limit).offset();
                if page > pages {
                    assert!(offset >= total);
                } else if total > 0 {
                    assert!(offset < total);
                }
            }
        }
    }
}

#[test]
fn page_beyond_the_last_is_empty_and_no_error() {
    let request = request(9, 5);
    let response = PaginatedResponse::assemble(&request, Vec::<String>::new(), 12).unwrap();
    assert!(response.data.is_empty());
    assert_eq!(response.pagination.current_page, 9);
    assert_eq!(response.pagination.total_pages, 3);
    assert!(!response.pagination.has_next);
    assert!(response.pagination.has_prev);
}

#[test]
fn empty_result_has_one_page() {
    let request = request(1, 12);
    let response = PaginatedResponse::assemble(&request, Vec::<String>::new(), 0).unwrap();
    assert_eq!(
        response.pagination,
        PaginationInfo {
            current_page: 1,
            per_page: 12,
            total: 0,
            total_pages: 1,
            has_next: false,
            has_prev: false,
        }
    );
}

#[test]
fn page_never_holds_more_rows_than_its_size() {
    let request = request(1, 5);
    let full = PaginatedResponse::assemble(&request, names(1, 5), 12).unwrap();
    assert!(full.data.len() <= full.pagination.per_page as usize);
    let refused = PaginatedResponse::assemble(&request, names(1, 6), 12);
    assert_eq!(
        refused,
        Err(ApiError::InternalServerError(
            "storage returned more rows than the page holds".to_string()
        ))
    );
    assert_eq!(refused.unwrap_err().status_code(), 500);
}

#[test]
fn negative_count_is_an_internal_error() {
    let request = request(1, 5);
    let refused = PaginatedResponse::assemble(&request, names(1, 2), -1);
    assert_eq!(
        refused,
        Err(ApiError::InternalServerError("storage reported a negative row count".to_string()))
    );
}

#[test]
fn requested_limit_above_the_cap_reports_the_cap() {
    let request = PageRequest::new(Some(1), Some(1000)).unwrap();
    let response = PaginatedResponse::assemble(&request, names(1, 50), 120).unwrap();
    assert_eq!(response.pagination.per_page, 50);
    assert_eq!(response.pagination.total_pages, 3);
}
