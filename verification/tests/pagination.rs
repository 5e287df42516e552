use rastercar::common::{default_page, default_page_size, Pagination, PaginationResult};
use rastercar::database::{Paginate, DEFAULT_PER_PAGE};

#[test]
fn defaults() {
    assert_eq!(default_page(), 1);
    assert_eq!(default_page_size(), 10);
    assert_eq!(DEFAULT_PER_PAGE, 10);
    assert_eq!(Pagination { page: 3, page_size: 10 }.page_index(), 2);
}

#[test]
fn paginate_sets_offset() {
    let q = "SELECT 1".paginate(3);
    assert_eq!(q.page(), 3);
    assert_eq!(q.page_size(), 10);
    assert_eq!(q.offset(), 20);
    let q = q.per_page(25);
    assert_eq!(q.page(), 3);
    assert_eq!(q.page_size(), 25);
    assert_eq!(q.offset(), 50);
    assert_eq!(*q.query(), "SELECT 1");
}

#[test]
fn result_from_rows() {
    let q = ().paginate(2).per_page(2);
    let r = q.load_with_pagination(vec![("a", 5i64), ("b", 5)]);
    assert_eq!(r.page, 2);
    assert_eq!(r.offset, 2);
    assert_eq!(r.page_size, 2);
    assert_eq!(r.page_count, 5);
    assert_eq!(r.records, vec!["a", "b"]);
    let empty = ().paginate(1).load_with_pagination::<u8>(vec![]);
    assert_eq!(empty.page_count, 0);
    assert!(empty.records.is_empty());
}

#[test]
fn pagination_result_keeps_request_values() {
    let r = PaginationResult::new(Pagination { page: 2, page_size: 5 }, vec![1, 2], 12, 3);
    assert_eq!((r.page, r.page_size, r.item_count, r.page_count), (2, 5, 12, 3));
    assert_eq!(r.records, vec![1, 2]);
}
