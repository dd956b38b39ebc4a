//! Tests of the page value type and its `has_more` derivation.

use fossapi::Page;
use fossapi::PaginationParams;

#[test]
fn test_page_has_more_with_total() {
    // Page 1 of 3 (total 250, 100 per page)
    let page: Page<i32> = Page::new(vec![1; 100], 1, 100, Some(250));
    assert!(page.has_more);

    // Page 3 of 3
    let page: Page<i32> = Page::new(vec![1; 50], 3, 100, Some(250));
    assert!(!page.has_more);
}

#[test]
fn test_page_has_more_without_total() {
    // Full page suggests more
    let page: Page<i32> = Page::new(vec![1; 100], 1, 100, None);
    assert!(page.has_more);

    // Partial page means no more
    let page: Page<i32> = Page::new(vec![1; 50], 1, 100, None);
    assert!(!page.has_more);
}

#[test]
fn test_page_map() {
    let page = Page::new(vec![1, 2, 3], 1, 100, Some(3));
    let mapped = page.map(|x| x * 2);
    assert_eq!(mapped.items, vec![2, 4, 6]);
    assert_eq!(mapped.page, 1);
}

#[test]
fn has_more_uses_requested_window_not_returned_length() {
    // A short page that is not yet at the known total still claims more.
    let page: Page<i32> = Page::new(vec![1; 3], 1, 100, Some(250));
    assert!(page.has_more);
    // The requested window reaching the total means no more, even if the
    // page itself came back full.
    let page: Page<i32> = Page::new(vec![1; 100], 3, 100, Some(300));
    assert!(!page.has_more);
}

#[test]
fn has_more_without_total_is_full_page_heuristic() {
    let page: Page<i32> = Page::new(vec![], 1, 0, None);
    assert!(page.has_more);
    let page: Page<i32> = Page::new(vec![1; 101], 1, 100, None);
    assert!(page.has_more);
    let page: Page<i32> = Page::new(vec![1; 99], 7, 100, None);
    assert!(!page.has_more);
}

#[test]
fn page_len_and_is_empty() {
    let page: Page<i32> = Page::new(vec![], 1, 10, Some(0));
    assert!(page.is_empty());
    assert_eq!(page.len(), 0);
    let page: Page<i32> = Page::new(vec![5, 6], 1, 10, Some(2));
    assert!(!page.is_empty());
    assert_eq!(page.len(), 2);
}

#[test]
fn pagination_params_for_page() {
    let p = PaginationParams::for_page(4, 25);
    assert_eq!(p.page, Some(4));
    assert_eq!(p.count, Some(25));
    let d = PaginationParams::default();
    assert_eq!(d.page, None);
    assert_eq!(d.count, None);
}
