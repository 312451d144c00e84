use ocms::error::AppError;
use ocms::pagination::{
    count_total, default_limit, default_page, pages_for, PaginatedResponse, PaginationParams,
};

#[test]
fn defaults_are_first_page_of_twenty() {
    assert_eq!(default_page(), 1);
    assert_eq!(default_limit(), 20);
}

#[test]
fn offset_skips_earlier_pages() {
    assert_eq!(PaginationParams { page: 3, limit: 20 }.offset(), 40);
    assert_eq!(PaginationParams { page: 1, limit: 20 }.offset(), 0);
}

#[test]
fn page_zero_reads_as_first_page() {
    assert_eq!(PaginationParams { page: 0, limit: 50 }.offset(), 0);
}

#[test]
fn offset_uses_requested_length_not_clamped_one() {
    assert_eq!(PaginationParams { page: 2, limit: 500 }.offset(), 500);
}

#[test]
fn checked_offset_reports_overflow() {
    assert_eq!(PaginationParams { page: 3, limit: 20 }.checked_offset(), Ok(40));
    assert_eq!(PaginationParams { page: 0, limit: u64::MAX }.checked_offset(), Ok(0));
    assert_eq!(PaginationParams { page: 2, limit: u64::MAX }.checked_offset(), Ok(u64::MAX));
    assert_eq!(
        PaginationParams { page: 3, limit: u64::MAX }.checked_offset(),
        Err(AppError::Validation("page is out of range".to_string()))
    );
}

#[test]
fn limit_is_clamped_to_one_hundred() {
    assert_eq!(PaginationParams { page: 1, limit: 500 }.limit_clamped(), 100);
    assert_eq!(PaginationParams { page: 1, limit: 100 }.limit_clamped(), 100);
    assert_eq!(PaginationParams { page: 1, limit: 7 }.limit_clamped(), 7);
}

#[test]
fn page_count_rounds_up() {
    assert_eq!(pages_for(45, 20), 3);
    assert_eq!(pages_for(40, 20), 2);
    assert_eq!(pages_for(0, 20), 0);
    assert_eq!(pages_for(1, 1), 1);
}

#[test]
fn page_count_with_zero_length() {
    assert_eq!(pages_for(0, 0), 0);
    assert_eq!(pages_for(5, 0), u64::MAX);
}

#[test]
fn response_meta_middle_page() {
    let r = PaginatedResponse::new(vec![1, 2, 3], 45, &PaginationParams { page: 2, limit: 20 });
    assert_eq!(r.data, vec![1, 2, 3]);
    assert_eq!(r.meta.total, 45);
    assert_eq!(r.meta.page, 2);
    assert_eq!(r.meta.limit, 20);
    assert_eq!(r.meta.total_pages, 3);
    assert!(r.meta.has_next);
    assert!(r.meta.has_prev);
}

#[test]
fn response_meta_last_and_first_pages() {
    let last = PaginatedResponse::<u8>::new(vec![], 45, &PaginationParams { page: 3, limit: 20 });
    assert!(!last.meta.has_next);
    assert!(last.meta.has_prev);
    let first = PaginatedResponse::<u8>::new(vec![], 45, &PaginationParams { page: 1, limit: 20 });
    assert!(first.meta.has_next);
    assert!(!first.meta.has_prev);
}

#[test]
fn response_meta_uses_clamped_length() {
    let r = PaginatedResponse::<u8>::new(vec![], 250, &PaginationParams { page: 1, limit: 1000 });
    assert_eq!(r.meta.limit, 100);
    assert_eq!(r.meta.total_pages, 3);
}

#[test]
fn page_start_inside_listing_matches_page_count() {
    // law: offset < total exactly when page <= total_pages
    for total in [0u64, 1, 19, 20, 21, 45, 100] {
        for page in 1u64..6 {
            let p = PaginationParams { page, limit: 20 };
            let r = PaginatedResponse::<u8>::new(vec![], total, &p);
            assert_eq!(p.offset() < total, page <= r.meta.total_pages, "total {total} page {page}");
            assert_eq!(r.meta.has_next, page * 20 < total, "total {total} page {page}");
        }
    }
}

#[test]
fn count_of_listing() {
    assert_eq!(count_total(Some(42)), 42);
    assert_eq!(count_total(None), 0);
}
