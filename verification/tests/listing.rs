//! Tests of the generic listing walk: termination on short pages, the
//! page ceiling against a misbehaving server, and error propagation.

use fossapi::list_all;
use fossapi::should_fetch_next;
use fossapi::FossaError;
use fossapi::List;
use fossapi::Page;
use fossapi::DEFAULT_PAGE_SIZE;
use fossapi::MAX_PAGES;

struct Row(#[allow(dead_code)] u32);

/// A server that always answers a full page and never reports a total:
/// the full-page heuristic claims more data forever.
struct EndlessSource {
    calls: u32,
}

impl List<EndlessSource> for Row {
    type Query = ();

    fn list_page(
        source: &mut EndlessSource,
        _query: &(),
        page: u32,
        count: u32,
    ) -> Result<Page<Row>, FossaError> {
        source.calls += 1;
        let items = (0..count).map(|k| Row(page.wrapping_mul(1000).wrapping_add(k))).collect();
        Ok(Page::new(items, page, count, None))
    }
}

/// A server whose total claims far more data, but whose first page comes
/// back short: the walk must trust the short page.
struct ShortPageSource {
    calls: u32,
}

impl List<ShortPageSource> for Row {
    type Query = ();

    fn list_page(
        source: &mut ShortPageSource,
        _query: &(),
        page: u32,
        count: u32,
    ) -> Result<Page<Row>, FossaError> {
        source.calls += 1;
        let items = vec![Row(1), Row(2), Row(3)];
        let p = Page::new(items, page, count, Some(1_000_000));
        assert!(p.has_more, "the heuristic must still claim more data");
        Ok(p)
    }
}

/// A server that fails on the second page.
struct FailingSource {
    calls: u32,
}

impl List<FailingSource> for Row {
    type Query = ();

    fn list_page(
        source: &mut FailingSource,
        _query: &(),
        page: u32,
        count: u32,
    ) -> Result<Page<Row>, FossaError> {
        source.calls += 1;
        if page >= 2 {
            return Err(FossaError::HttpError("connection reset".to_string()));
        }
        let items = (0..count).map(Row).collect();
        Ok(Page::new(items, page, count, None))
    }
}

#[test]
fn list_all_stops_at_the_page_ceiling() {
    let mut source = EndlessSource { calls: 0 };
    let items = list_all::<EndlessSource, Row>(&mut source, &()).expect("walk should succeed");
    assert_eq!(source.calls, MAX_PAGES);
    assert_eq!(items.len(), (MAX_PAGES as usize) * (DEFAULT_PAGE_SIZE as usize));
}

#[test]
fn list_all_stops_after_first_short_page() {
    let mut source = ShortPageSource { calls: 0 };
    let items = list_all::<ShortPageSource, Row>(&mut source, &()).expect("walk should succeed");
    assert_eq!(source.calls, 1, "a short page ends the walk even when has_more is true");
    assert_eq!(items.len(), 3);
}

#[test]
fn list_all_aborts_on_a_failed_page() {
    let mut source = FailingSource { calls: 0 };
    let result = list_all::<FailingSource, Row>(&mut source, &());
    assert!(result.is_err());
    assert_eq!(source.calls, 2);
}

#[test]
fn should_fetch_next_decision() {
    // Continue only on a full page that claims more, below the ceiling.
    assert!(should_fetch_next(1, 100, 100, true));
    assert!(!should_fetch_next(1, 99, 100, true));
    assert!(!should_fetch_next(1, 100, 100, false));
    assert!(!should_fetch_next(MAX_PAGES, 100, 100, true));
    assert!(should_fetch_next(MAX_PAGES - 1, 150, 100, true));
}
