//! Pagination primitives: one page of a listing result, with metadata
//! about size and continuation.

use vstd::prelude::*;

verus! {

/// Default page size used when walking all pages of a listing.
pub const DEFAULT_PAGE_SIZE: u32 = 100;

/// Hard ceiling on the number of pages fetched by a full listing walk,
/// so that a misbehaving server cannot cause unbounded work.
pub const MAX_PAGES: u32 = 1000;

/// How the `has_more` flag of a page is derived.
///
/// When the server reports a total, a page claims more data exactly when
/// the requested window (`page * count`) still lies below that total.
/// When no total is known, a full page is taken as evidence that more
/// data exists, and a partial page as proof of exhaustion.
pub open spec fn spec_has_more(total: Option<u64>, page: u32, count: u32, n_items: nat) -> bool {
    match total {
        Some(t) => (page as nat) * (count as nat) < t as nat,
        None => n_items >= count as nat,
    }
}

/// With a known total, a page claims more data exactly when the
/// requested window `page * count` lies below the total, regardless of
/// how many items actually came back.
pub proof fn lemma_has_more_with_total(total: u64, page: u32, count: u32, n_items: nat)
    ensures
        spec_has_more(Some(total), page, count, n_items) == ((page as nat) * (count as nat)
            < total as nat),
{
}

/// Without a total, a page claims more data exactly when it came back
/// full: the returned length reaching the requested count is the only
/// evidence used.
pub proof fn lemma_has_more_without_total(page: u32, count: u32, n_items: nat)
    ensures
        spec_has_more(None, page, count, n_items) == (n_items >= count as nat),
{
}

/// A page of results from a listing endpoint.
pub struct Page<T> {
    /// The items on this page.
    pub items: Vec<T>,
    /// Total number of items across all pages (if known).
    pub total: Option<u64>,
    /// Current page number (1-indexed).
    pub page: u32,
    /// Number of items per page that was requested.
    pub count: u32,
    /// Whether there are more pages.
    pub has_more: bool,
}

impl<T> Page<T> {
    /// A page is well formed when its `has_more` flag agrees with the
    /// derivation rule; `new` is the only constructor, so this holds of
    /// every page the library builds.
    pub open spec fn wf(self) -> bool {
        self.has_more == spec_has_more(self.total, self.page, self.count, self.items@.len())
    }

    /// Create a new page from items and pagination info; `has_more` is
    /// always computed, never supplied by the caller.
    pub fn new(items: Vec<T>, page: u32, count: u32, total: Option<u64>) -> (r: Self)
        ensures
            r.items == items,
            r.total == total,
            r.page == page,
            r.count == count,
            r.wf(),
            total is Some ==> r.has_more == ((page as nat) * (count as nat) < total->Some_0 as nat),
            total is None ==> r.has_more == (items@.len() >= count as nat),
    {
        let has_more = match total {
            Some(t) => {
                let p = page as u64;
                let c = count as u64;
                assert(p * c <= 0xffff_ffffu64 * 0xffff_ffffu64) by (nonlinear_arith)
                    requires
                        p <= 0xffff_ffffu64,
                        c <= 0xffff_ffffu64,
                ;
                p * c < t
            },
            None => items.len() >= count as usize,
        };
        Self { items, total, page, count, has_more }
    }

    /// Map the items to a different type, keeping all pagination metadata.
    pub fn map<U, F: Fn(T) -> U>(self, f: F) -> (r: Page<U>)
        requires
            forall|i: int| 0 <= i < self.items@.len() ==> f.requires((self.items@[i],)),
        ensures
            r.total == self.total,
            r.page == self.page,
            r.count == self.count,
            r.has_more == self.has_more,
            r.items@.len() == self.items@.len(),
            forall|i: int|
                0 <= i < self.items@.len() ==> f.ensures((self.items@[i],), #[trigger] r.items@[i]),
    {
        let ghost orig = self.items@;
        let mut rest = self.items;
        let mut out: Vec<U> = Vec::new();
        let n = rest.len();
        for j in 0..n
            invariant
                n == orig.len(),
                rest@ == orig.skip(j as int),
                out@.len() == j,
                forall|i: int| j <= i < n ==> f.requires((orig[i],)),
                forall|i: int| 0 <= i < j ==> f.ensures((orig[i],), #[trigger] out@[i]),
        {
            let x = rest.remove(0);
            assert(x == orig[j as int]);
            let y = f(x);
            out.push(y);
            proof {
                assert(rest@ =~= orig.skip(j + 1));
            }
        }
        Page { items: out, total: self.total, page: self.page, count: self.count, has_more: self.has_more }
    }

    /// Returns true if this page has no items.
    pub fn is_empty(&self) -> (r: bool)
        ensures
            r == (self.items@.len() == 0),
    {
        self.items.is_empty()
    }

    /// Returns the number of items on this page.
    pub fn len(&self) -> (r: usize)
        ensures
            r == self.items@.len(),
    {
        self.items.len()
    }
}

/// Query parameters for paginated requests.
pub struct PaginationParams {
    /// Page number (1-indexed).
    pub page: Option<u32>,
    /// Number of items per page.
    pub count: Option<u32>,
}

impl PaginationParams {
    /// Create pagination params for a specific page.
    pub fn for_page(page: u32, count: u32) -> (r: Self)
        ensures
            r.page == Some(page),
            r.count == Some(count),
    {
        Self { page: Some(page), count: Some(count) }
    }
}

impl Default for PaginationParams {
    /// Params that leave both the page and the page size to the server's
    /// defaults.
    fn default() -> (r: Self)
        ensures
            r.page is None,
            r.count is None,
    {
        Self { page: None, count: None }
    }
}

} // verus!
