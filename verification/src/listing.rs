//! The listing capability and the generic "fetch everything" walk.
//!
//! Every listable resource implements [`List`] against some page source
//! `S` (an in-process mock here; a network transport outside this crate).
//! [`list_all`] is written once on top of it and does not know which
//! concrete resource it is paging through. A ghost log of the page
//! requests a source has answered ties the walk's result to the pages
//! that actually came back.

use vstd::prelude::*;

use crate::error::FossaError;
use crate::pagination::Page;
use crate::pagination::DEFAULT_PAGE_SIZE;
use crate::pagination::MAX_PAGES;

verus! {

/// One answered page request, as the ghost fetch log records it: what
/// was asked (page number, page size, query) and what came back (the
/// item views and the continuation flag).
pub struct PageRequest<Q, T> {
    /// The 1-indexed page number that was requested.
    pub page: u32,
    /// The page size that was requested.
    pub count: u32,
    /// The query the request carried.
    pub query: Q,
    /// The items the page came back with.
    pub items: Seq<T>,
    /// The page's continuation flag.
    pub has_more: bool,
}

/// Fetch a single entity of one resource kind by id from a source `S`.
///
/// What is returned for which id is the concern of each implementation;
/// the trait itself fixes only the shape of the operation.
pub trait Get<S>: Sized {
    /// The id type of this entity (typically a locator string).
    type Id;

    /// Fetch the entity by id; an absent id is an error, never a panic.
    fn get(source: &mut S, id: Self::Id) -> Result<Self, FossaError>;
}

/// Update a single entity of one resource kind through a source `S`.
pub trait Update<S>: Sized {
    /// The id type of this entity.
    type Id;

    /// Parameters for the update.
    type Params;

    /// Update the entity and return the updated record.
    fn update(source: &mut S, id: Self::Id, params: Self::Params) -> Result<Self, FossaError>;
}

/// List entities of one resource kind from a page source `S`.
pub trait List<S>: Sized {
    /// Resource-specific filter/query value; opaque to the walk.
    type Query;

    /// Abstract count of page requests that have been issued through
    /// `source`, the failed ones included; each call of `list_page`
    /// raises it by exactly one. Implementations that do not track
    /// their requests may leave the default in place; the walk's
    /// request-count clauses then say nothing about them.
    open spec fn calls(source: S) -> nat {
        0
    }

    /// The log of the page requests that `source` has answered
    /// successfully, in order. A successful `list_page` appends exactly
    /// its request and response; a failed one appends nothing.
    /// Implementations that do not track their requests may leave the
    /// default in place, with the same caveat as for `calls`.
    open spec fn fetched(source: S) -> Seq<PageRequest<Self::Query, Self>> {
        Seq::empty()
    }

    /// Fetch one page of entities matching the query.
    ///
    /// `page` is 1-indexed; values below 1 are the caller's concern.
    /// Failures of the underlying source are surfaced unchanged.
    fn list_page(source: &mut S, query: &Self::Query, page: u32, count: u32) -> (r: Result<
        Page<Self>,
        FossaError,
    >)
        ensures
            Self::calls(*final(source)) == Self::calls(*old(source)) + 1,
            r matches Ok(p) ==> Self::fetched(*final(source)) == Self::fetched(*old(source)).push(
                PageRequest {
                    page,
                    count,
                    query: *query,
                    items: p.items@,
                    has_more: p.has_more,
                },
            ),
            r is Err ==> Self::fetched(*final(source)) == Self::fetched(*old(source)),
    ;
}

/// The suffix the fetch log gained between two source states: the pages
/// answered in between.
pub open spec fn walk_log<S, T: List<S>>(pre: S, post: S) -> Seq<PageRequest<T::Query, T>> {
    T::fetched(post).skip(T::fetched(pre).len() as int)
}

/// The fetch log only grows: everything logged before is still there,
/// unchanged and in place.
pub open spec fn walk_extends_log<S, T: List<S>>(pre: S, post: S) -> bool {
    &&& T::fetched(post).len() >= T::fetched(pre).len()
    &&& T::fetched(post).subrange(0, T::fetched(pre).len() as int) == T::fetched(pre)
}

/// The shape of a completed walk's own pages: consecutive page numbers
/// from 1 at the fixed internal page size; every page before the last
/// was full and claimed more data (so the walk went on only when both
/// justified it); and the last page was short, claimed no more data, or
/// stood at the page ceiling.
pub open spec fn walk_shape<Q, T>(new: Seq<PageRequest<Q, T>>) -> bool {
    &&& 1 <= new.len() <= MAX_PAGES as nat
    &&& (forall|i: int|
        0 <= i < new.len() ==> (#[trigger] new[i]).page as int == i + 1 && new[i].count
            == DEFAULT_PAGE_SIZE)
    &&& (forall|i: int|
        0 <= i < new.len() - 1 ==> (#[trigger] new[i]).items.len() >= DEFAULT_PAGE_SIZE as nat
            && new[i].has_more)
    &&& (new.last().items.len() < DEFAULT_PAGE_SIZE as nat || !new.last().has_more || new.len()
        == MAX_PAGES as nat)
}

/// The shape of an aborted walk's own pages: every page that was
/// answered came back full and claiming more data (each one justified
/// the next request), numbered consecutively from 1 at the fixed size;
/// the request after them is the one that failed.
pub open spec fn walk_err_shape<Q, T>(new: Seq<PageRequest<Q, T>>) -> bool {
    &&& new.len() < MAX_PAGES as nat
    &&& (forall|i: int|
        0 <= i < new.len() ==> (#[trigger] new[i]).page as int == i + 1 && new[i].count
            == DEFAULT_PAGE_SIZE && new[i].items.len() >= DEFAULT_PAGE_SIZE as nat
            && new[i].has_more)
}

/// The concatenation of the items of a run of pages, in fetch order.
pub open spec fn walk_items<Q, T>(new: Seq<PageRequest<Q, T>>) -> Seq<T> {
    new.map_values(|p: PageRequest<Q, T>| p.items).flatten()
}

/// Every page of a run was requested with the one given query.
pub open spec fn walk_queries<Q, T>(new: Seq<PageRequest<Q, T>>, q: Q) -> bool {
    forall|i: int| 0 <= i < new.len() ==> (#[trigger] new[i]).query == q
}

/// What one full walk did, read off the fetch log it appended. On `Ok`:
/// every request of this walk succeeded, the run has the completed
/// [`walk_shape`], and the result is exactly the concatenation of the
/// fetched pages' items. On `Err`: the answered pages have the aborted
/// [`walk_err_shape`], and exactly one further request was made — the
/// failing one, which ended the walk with no retry.
pub open spec fn walk_result<S, T: List<S>>(pre: S, post: S, r: Result<Vec<T>, FossaError>) -> bool {
    let new = walk_log::<S, T>(pre, post);
    &&& walk_extends_log::<S, T>(pre, post)
    &&& match r {
        Ok(items) => {
            &&& walk_shape(new)
            &&& items@ == walk_items(new)
            &&& T::calls(post) == T::calls(pre) + new.len()
        },
        Err(_) => {
            &&& walk_err_shape(new)
            &&& T::calls(post) == T::calls(pre) + new.len() + 1
        },
    }
}

/// Walk all pages of a listing, concatenating the results.
///
/// Pages are requested sequentially starting at page 1 with the fixed
/// internal page size and the caller's query. The walk stops when a page
/// claims no more data, when a page comes back shorter than requested,
/// or silently when the `MAX_PAGES` ceiling is reached (the partial
/// result is returned as success, not an error). A failed page request
/// aborts the walk immediately and surfaces that error.
pub fn list_all<S, T: List<S>>(source: &mut S, query: &T::Query) -> (r: Result<Vec<T>, FossaError>)
    ensures
        T::calls(*final(source)) <= T::calls(*old(source)) + MAX_PAGES as nat,
        T::calls(*final(source)) >= T::calls(*old(source)) + 1,
        walk_result::<S, T>(*old(source), *final(source), r),
        walk_queries(walk_log::<S, T>(*old(source), *final(source)), *query),
{
    let ghost calls0 = T::calls(*source);
    let ghost fetched0 = T::fetched(*source);
    let mut all: Vec<T> = Vec::new();
    let mut page: u32 = 1;
    let ghost mut log: Seq<PageRequest<T::Query, T>> = Seq::empty();
    loop
        invariant_except_break
            1 <= page <= MAX_PAGES,
            log.len() == page - 1,
            forall|i: int|
                0 <= i < log.len() ==> (#[trigger] log[i]).items.len() >= DEFAULT_PAGE_SIZE as nat
                    && log[i].has_more,
        invariant
            calls0 == T::calls(*old(source)),
            fetched0 == T::fetched(*old(source)),
            T::calls(*source) == calls0 + log.len(),
            T::fetched(*source) == fetched0 + log,
            forall|i: int|
                0 <= i < log.len() ==> (#[trigger] log[i]).page as int == i + 1 && log[i].count
                    == DEFAULT_PAGE_SIZE && log[i].query == *query,
            all@ == walk_items(log),
        ensures
            T::calls(*source) == calls0 + log.len(),
            T::fetched(*source) == fetched0 + log,
            walk_shape(log),
            all@ == walk_items(log),
        decreases MAX_PAGES - page,
    {
        let result = match T::list_page(source, query, page, DEFAULT_PAGE_SIZE) {
            Ok(p) => p,
            Err(e) => {
                proof {
                    assert(T::fetched(*source).subrange(0, fetched0.len() as int) =~= fetched0);
                    assert(walk_log::<S, T>(*old(source), *source) =~= log);
                }
                return Err(e);
            },
        };
        let more = result.has_more;
        let mut items = result.items;
        let items_count = items.len();
        let ghost entry = PageRequest {
            page,
            count: DEFAULT_PAGE_SIZE,
            query: *query,
            items: items@,
            has_more: more,
        };
        let ghost prev = log;
        all.append(&mut items);
        proof {
            log = log.push(entry);
            assert(T::fetched(*source) =~= fetched0 + log);
            assert(log.map_values(|p: PageRequest<T::Query, T>| p.items) =~= prev.map_values(
                |p: PageRequest<T::Query, T>| p.items,
            ).push(entry.items));
            prev.map_values(|p: PageRequest<T::Query, T>| p.items).lemma_flatten_push(entry.items);
        }
        if !more || items_count < DEFAULT_PAGE_SIZE as usize {
            break;
        }
        if page == MAX_PAGES {
            break;
        }
        page = page + 1;
    }
    proof {
        assert(T::fetched(*source).subrange(0, fetched0.len() as int) =~= fetched0);
        assert(walk_log::<S, T>(*old(source), *source) =~= log);
    }
    Ok(all)
}

/// The continuation decision of the walk, as one total function over what
/// a page request returned: fetch another page only when the page just
/// received was full, claimed more data, and the ceiling has not been
/// reached. `pages_fetched` counts the requests already issued.
pub fn should_fetch_next(pages_fetched: u32, page_len: usize, count: u32, has_more: bool) -> (r:
    bool)
    ensures
        r == (has_more && page_len >= count as usize && pages_fetched < MAX_PAGES),
{
    has_more && page_len >= count as usize && pages_fetched < MAX_PAGES
}

} // verus!
