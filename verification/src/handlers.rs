//! Endpoint logic of the mock API server: percent-decoding of locator
//! segments, key lookups, slicing for the pagination dialects, and the
//! one write path. Everything here is computed from a [`MockState`] and
//! plain request values; the HTTP carrier lives outside this crate.

use vstd::prelude::*;
use vstd::string::StringExecFns;
use vstd::string::StrSliceExecFns;

use crate::codec::decoded_of;
use crate::codec::percent_decode;
use crate::dependency::Dependency;
use crate::issue::Issue;
use crate::project::Project;
use crate::revision::Revision;
use crate::state::entry_has_key;
use crate::state::find_by;
use crate::state::issue_has_key;
use crate::state::project_has_key;
use crate::state::revision_has_key;
use crate::state::MockState;
use crate::strutil::parse_u64;
use crate::strutil::parse_u64_spec;

verus! {

/// Default page number when a list request does not name one.
pub const DEFAULT_PAGE: u32 = 1;

/// Default page size of project and issue listings.
pub const DEFAULT_LIST_COUNT: u32 = 20;

/// Default page size of dependency listings.
pub const DEFAULT_DEPENDENCY_COUNT: u32 = 100;

/// The window `[(page-1)*count, (page-1)*count + count)` of `s`, clamped
/// to the bounds of `s`; a start outside the bounds (a page below 1 or
/// past the data) yields the empty sequence, never an error.
pub open spec fn spec_page_slice<T>(s: Seq<T>, page: u32, count: u32) -> Seq<T> {
    let start = (page as int - 1) * (count as int);
    if 0 <= start < s.len() {
        let end = if start + count as int <= s.len() {
            start + count as int
        } else {
            s.len() as int
        };
        s.subrange(start, end)
    } else {
        Seq::empty()
    }
}

/// A named optional value, or the default when absent.
pub open spec fn spec_or_default(v: Option<u32>, d: u32) -> u32 {
    match v {
        Some(x) => x,
        None => d,
    }
}

/// Resolve an optional request value against its default.
pub fn or_default(v: Option<u32>, d: u32) -> (r: u32)
    ensures
        r == spec_or_default(v, d),
{
    match v {
        Some(x) => x,
        None => d,
    }
}

/// A structured error response: a short error kind and a human-readable
/// message.
#[derive(Debug)]
pub struct ApiError {
    /// The error kind (e.g., "Project not found").
    pub error: String,
    /// The full message, naming the offending key.
    pub message: String,
}

/// The body answered by the project list endpoint: the page's records
/// and the total count of matching projects (counted pagination).
#[derive(Debug)]
pub struct ProjectsPage {
    /// The records of the requested window.
    pub projects: Vec<Project>,
    /// Total number of matching projects across all pages.
    pub total: u64,
}

/// The body answered by the issue list endpoint: the page's records and
/// no total (uncounted pagination).
#[derive(Debug)]
pub struct IssuesPage {
    /// The records of the requested window.
    pub issues: Vec<Issue>,
}

/// The body answered by the dependency list endpoint: the page's records
/// and the total count of the revision's dependencies.
#[derive(Debug)]
pub struct DependenciesPage {
    /// The records of the requested window.
    pub dependencies: Vec<Dependency>,
    /// Total number of dependencies recorded for the revision.
    pub count: u64,
}

/// Query parameters of the project list endpoint.
#[derive(Debug)]
pub struct ListProjectsQuery {
    /// Page number (1-indexed); defaults to 1.
    pub page: Option<u32>,
    /// Page size; defaults to the list default.
    pub count: Option<u32>,
    /// Optional case-insensitive substring filter on the title.
    pub title: Option<String>,
}

impl Default for ListProjectsQuery {
    /// No filter, server-side defaults for the page window.
    fn default() -> (r: Self)
        ensures
            r.page is None,
            r.count is None,
            r.title is None,
    {
        ListProjectsQuery { page: None, count: None, title: None }
    }
}

/// Query parameters of the issue list endpoint.
#[derive(Debug)]
pub struct ListIssuesQuery {
    /// Page number (1-indexed); defaults to 1.
    pub page: Option<u32>,
    /// Page size; defaults to the list default.
    pub count: Option<u32>,
    /// Optional case-insensitive exact filter on the issue type.
    pub category: Option<String>,
    /// Scope type filter; accepted and ignored by this double.
    pub scope_type: Option<String>,
    /// Scope id filter; accepted and ignored by this double.
    pub scope_id: Option<String>,
}

impl Default for ListIssuesQuery {
    /// No filter, server-side defaults for the page window.
    fn default() -> (r: Self)
        ensures
            r.page is None,
            r.count is None,
            r.category is None,
            r.scope_type is None,
            r.scope_id is None,
    {
        ListIssuesQuery { page: None, count: None, category: None, scope_type: None, scope_id: None }
    }
}

/// Query parameters of the dependency list endpoint.
#[derive(Debug)]
pub struct ListDependenciesQuery {
    /// Page number (1-indexed); defaults to 1.
    pub page: Option<u32>,
    /// Page size; defaults to the dependency default.
    pub count: Option<u32>,
}

impl Default for ListDependenciesQuery {
    /// Server-side defaults for the page window.
    fn default() -> (r: Self)
        ensures
            r.page is None,
            r.count is None,
    {
        ListDependenciesQuery { page: None, count: None }
    }
}

/// Query parameters of the grouped revision list endpoint; pagination is
/// accepted here for interface fidelity but this dialect never applies
/// it.
#[derive(Debug)]
pub struct ListRevisionsQuery {
    /// Page number; accepted and ignored by this dialect.
    pub page: Option<u32>,
    /// Page size; accepted and ignored by this dialect.
    pub count: Option<u32>,
}

impl Default for ListRevisionsQuery {
    /// No pagination named.
    fn default() -> (r: Self)
        ensures
            r.page is None,
            r.count is None,
    {
        ListRevisionsQuery { page: None, count: None }
    }
}

/// Query parameters of the single-issue endpoint.
#[derive(Debug)]
pub struct GetIssueQuery {
    /// The issue category; the upstream API requires it.
    pub category: Option<String>,
}

impl Default for GetIssueQuery {
    /// No category named.
    fn default() -> (r: Self)
        ensures
            r.category is None,
    {
        GetIssueQuery { category: None }
    }
}

/// Body parameters of the project update endpoint; each field is
/// independently optional.
#[derive(Debug)]
pub struct UpdateProjectParams {
    /// New project title.
    pub title: Option<String>,
    /// New project description; accepted and ignored by this double.
    pub description: Option<String>,
    /// New project URL.
    pub url: Option<String>,
    /// New public visibility.
    pub public: Option<bool>,
}

/// Get a project by percent-encoded locator: exact key lookup of the
/// decoded locator; an absent key is a structured not-found outcome.
pub fn get_project_response(state: &MockState, raw_locator: &String) -> (r: Result<
    Project,
    ApiError,
>)
    ensures
        match find_by(state.projects@, project_has_key(decoded_of(raw_locator@))) {
            Some(i) => r matches Ok(p) && p@ == state.projects@[i]@,
            None => r matches Err(e) && e.error@ == "Project not found"@ && e.message@
                == "No project found with locator: "@ + decoded_of(raw_locator@),
        },
{
    let decoded = percent_decode(raw_locator);
    match state.get_project(decoded.as_str()) {
        Some(p) => Ok(p.clone()),
        None => Err(
            ApiError {
                error: String::from_str("Project not found"),
                message: String::from_str("No project found with locator: ").concat(
                    decoded.as_str(),
                ),
            },
        ),
    }
}

/// Get a revision by percent-encoded locator: exact key lookup of the
/// decoded locator; an absent key is a structured not-found outcome.
pub fn get_revision_response(state: &MockState, raw_locator: &String) -> (r: Result<
    Revision,
    ApiError,
>)
    ensures
        match find_by(state.revisions@, revision_has_key(decoded_of(raw_locator@))) {
            Some(i) => r matches Ok(v) && v == state.revisions@[i],
            None => r matches Err(e) && e.error@ == "Revision not found"@ && e.message@
                == "No revision found with locator: "@ + decoded_of(raw_locator@),
        },
{
    let decoded = percent_decode(raw_locator);
    match state.get_revision(decoded.as_str()) {
        Some(v) => Ok(v.clone()),
        None => Err(
            ApiError {
                error: String::from_str("Revision not found"),
                message: String::from_str("No revision found with locator: ").concat(
                    decoded.as_str(),
                ),
            },
        ),
    }
}

/// Get an issue by its raw id path segment, with the category validation
/// the upstream API performs: a missing category is a validation error, a
/// non-numeric id an invalid-id error, an absent key a not-found outcome.
pub fn get_issue_response(state: &MockState, raw_id: &String, query: &GetIssueQuery) -> (r: Result<
    Issue,
    ApiError,
>)
    ensures
        query.category is None ==> (r matches Err(e) && e.error@ == "Validation error"@
            && e.message@
            == "Invalid option: expected one of licensing, vulnerability, quality at category"@),
        query.category is Some && parse_u64_spec(raw_id@) is None ==> (r matches Err(e) && e.error@
            == "Invalid issue ID"@ && e.message@ == "Issue ID must be a number"@),
        query.category is Some ==> (parse_u64_spec(raw_id@) matches Some(id) ==> match find_by(
            state.issues@,
            issue_has_key(id),
        ) {
            Some(i) => r matches Ok(x) && x@ == state.issues@[i]@,
            None => r matches Err(e) && e.error@ == "Issue not found"@ && e.message@
                == "No issue found with ID: "@ + raw_id@,
        }),
{
    if query.category.is_none() {
        return Err(
            ApiError {
                error: String::from_str("Validation error"),
                message: String::from_str(
                    "Invalid option: expected one of licensing, vulnerability, quality at category",
                ),
            },
        );
    }
    let id = match parse_u64(raw_id.as_str()) {
        Some(id) => id,
        None => {
            return Err(
                ApiError {
                    error: String::from_str("Invalid issue ID"),
                    message: String::from_str("Issue ID must be a number"),
                },
            );
        },
    };
    match state.get_issue(id) {
        Some(x) => Ok(x.clone()),
        None => Err(
            ApiError {
                error: String::from_str("Issue not found"),
                message: String::from_str("No issue found with ID: ").concat(raw_id.as_str()),
            },
        ),
    }
}

/// Update a project by percent-encoded locator: decodes the key, applies
/// the partial update, and answers with the post-update record, or a
/// structured not-found outcome (leaving the state unchanged) when the
/// key is absent.
pub fn update_project_response(
    state: &mut MockState,
    raw_locator: &String,
    params: UpdateProjectParams,
) -> (r: Result<Project, ApiError>)
    ensures
        old(state).wf() ==> final(state).wf(),
        final(state).revisions == old(state).revisions,
        final(state).dependencies == old(state).dependencies,
        final(state).issues == old(state).issues,
        match find_by(old(state).projects@, project_has_key(decoded_of(raw_locator@))) {
            None => {
                &&& final(state).projects == old(state).projects
                &&& r matches Err(e) && e.error@ == "Project not found"@ && e.message@
                    == "No project found with locator: "@ + decoded_of(raw_locator@)
            },
            Some(i) => {
                let before = old(state).projects@[i];
                let after = final(state).projects@[i];
                &&& r matches Ok(p) && p@ == after@
                &&& final(state).projects@.len() == old(state).projects@.len()
                &&& (forall|j: int|
                    0 <= j < old(state).projects@.len() && j != i ==> final(state).projects@[j]
                        == old(state).projects@[j])
                &&& after.id == before.id
                &&& after.title == (match params.title {
                    Some(t) => t,
                    None => before.title,
                })
                &&& after.url == (match params.url {
                    Some(u) => Some(u),
                    None => before.url,
                })
                &&& after.public == (match params.public {
                    Some(b) => b,
                    None => before.public,
                })
                &&& after.branch == before.branch
                &&& after.version == before.version
                &&& after.project_type == before.project_type
                &&& after.scanned == before.scanned
                &&& after.last_analyzed == before.last_analyzed
                &&& after.issues == before.issues
                &&& after.labels == before.labels
                &&& after.teams == before.teams
                &&& after.latest_revision == before.latest_revision
                &&& after.latest_build_status == before.latest_build_status
            },
        },
{
    let decoded = percent_decode(raw_locator);
    match state.update_project(decoded.as_str(), params.title, params.url, params.public) {
        Some(p) => Ok(p.clone()),
        None => Err(
            ApiError {
                error: String::from_str("Project not found"),
                message: String::from_str("No project found with locator: ").concat(
                    decoded.as_str(),
                ),
            },
        ),
    }
}

/// List projects with counted pagination: the full matching set is
/// computed, its length reported as the total, and the requested window
/// sliced out of it.
pub fn list_projects_response(state: &MockState, query: &ListProjectsQuery) -> (r: ProjectsPage)
    ensures
        ({
            let fil = state.filtered_projects(
                match query.title {
                    Some(f) => Some(f@),
                    None => None,
                },
            );
            let slice = spec_page_slice(
                fil,
                spec_or_default(query.page, DEFAULT_PAGE),
                spec_or_default(query.count, DEFAULT_LIST_COUNT),
            );
            &&& r.total == fil.len()
            &&& r.projects@.len() == slice.len()
            &&& (forall|k: int| 0 <= k < slice.len() ==> (#[trigger] r.projects@[k])@ == slice[k]@)
        }),
{
    let all = state.list_projects(
        match &query.title {
            Some(t) => Some(t.as_str()),
            None => None,
        },
    );
    let p = or_default(query.page, DEFAULT_PAGE);
    let c = or_default(query.count, DEFAULT_LIST_COUNT);
    let total = all.len() as u64;
    let ghost fil = state.filtered_projects(
        match &query.title {
            Some(f) => Some(f@),
            None => None,
        },
    );
    let ghost slice = spec_page_slice(fil, p, c);
    let mut out: Vec<Project> = Vec::new();
    if p >= 1 {
        let pm1 = p as u64 - 1;
        let cw = c as u64;
        assert(pm1 * cw <= 0xffff_fffeu64 * 0xffff_ffffu64) by (nonlinear_arith)
            requires
                pm1 <= 0xffff_fffeu64,
                cw <= 0xffff_ffffu64,
        ;
        let start = pm1 * cw;
        if start < all.len() as u64 {
            let s = start as usize;
            let e = if c as usize <= all.len() - s {
                s + c as usize
            } else {
                all.len()
            };
            proof {
                assert(slice == fil.subrange(s as int, e as int));
            }
            let mut k = s;
            while k < e
                invariant
                    s <= k <= e <= all.len(),
                    all@.len() == fil.len(),
                    forall|j: int| 0 <= j < fil.len() ==> *(#[trigger] all@[j]) == fil[j],
                    slice == fil.subrange(s as int, e as int),
                    out@.len() == k - s,
                    forall|j: int| 0 <= j < out@.len() ==> (#[trigger] out@[j])@ == slice[j]@,
                decreases e - k,
            {
                out.push(all[k].clone());
                k = k + 1;
            }
            return ProjectsPage { projects: out, total };
        }
        proof {
            assert(slice =~= Seq::<Project>::empty());
        }
        return ProjectsPage { projects: out, total };
    }
    proof {
        assert((p as int - 1) * (c as int) == -(c as int)) by (nonlinear_arith)
            requires
                p == 0,
        ;
        assert(slice =~= Seq::<Project>::empty());
    }
    ProjectsPage { projects: out, total }
}

/// List issues with uncounted pagination: the same slicing as for
/// projects, but the body carries no total; the caller must rely on the
/// full-page heuristic.
pub fn list_issues_response(state: &MockState, query: &ListIssuesQuery) -> (r: IssuesPage)
    ensures
        ({
            let fil = state.filtered_issues(
                match query.category {
                    Some(c) => Some(c@),
                    None => None,
                },
            );
            let slice = spec_page_slice(
                fil,
                spec_or_default(query.page, DEFAULT_PAGE),
                spec_or_default(query.count, DEFAULT_LIST_COUNT),
            );
            &&& r.issues@.len() == slice.len()
            &&& (forall|k: int| 0 <= k < slice.len() ==> (#[trigger] r.issues@[k])@ == slice[k]@)
        }),
{
    let all = state.list_issues(
        match &query.category {
            Some(c) => Some(c.as_str()),
            None => None,
        },
    );
    let p = or_default(query.page, DEFAULT_PAGE);
    let c = or_default(query.count, DEFAULT_LIST_COUNT);
    let ghost fil = state.filtered_issues(
        match &query.category {
            Some(cc) => Some(cc@),
            None => None,
        },
    );
    let ghost slice = spec_page_slice(fil, p, c);
    let mut out: Vec<Issue> = Vec::new();
    if p >= 1 {
        let pm1 = p as u64 - 1;
        let cw = c as u64;
        assert(pm1 * cw <= 0xffff_fffeu64 * 0xffff_ffffu64) by (nonlinear_arith)
            requires
                pm1 <= 0xffff_fffeu64,
                cw <= 0xffff_ffffu64,
        ;
        let start = pm1 * cw;
        if start < all.len() as u64 {
            let s = start as usize;
            let e = if c as usize <= all.len() - s {
                s + c as usize
            } else {
                all.len()
            };
            proof {
                assert(slice == fil.subrange(s as int, e as int));
            }
            let mut k = s;
            while k < e
                invariant
                    s <= k <= e <= all.len(),
                    all@.len() == fil.len(),
                    forall|j: int| 0 <= j < fil.len() ==> *(#[trigger] all@[j]) == fil[j],
                    slice == fil.subrange(s as int, e as int),
                    out@.len() == k - s,
                    forall|j: int| 0 <= j < out@.len() ==> (#[trigger] out@[j])@ == slice[j]@,
                decreases e - k,
            {
                out.push(all[k].clone());
                k = k + 1;
            }
            return IssuesPage { issues: out };
        }
        proof {
            assert(slice =~= Seq::<Issue>::empty());
        }
        return IssuesPage { issues: out };
    }
    proof {
        assert((p as int - 1) * (c as int) == -(c as int)) by (nonlinear_arith)
            requires
                p == 0,
        ;
        assert(slice =~= Seq::<Issue>::empty());
    }
    IssuesPage { issues: out }
}

/// List the dependencies of a revision (by percent-encoded locator) with
/// counted pagination and a default page size of its own; a revision with
/// no recorded list yields an empty page with total 0, not an error.
pub fn list_dependencies_response(
    state: &MockState,
    raw_revision_locator: &String,
    query: &ListDependenciesQuery,
) -> (r: DependenciesPage)
    ensures
        ({
            match find_by(state.dependencies@, entry_has_key(decoded_of(raw_revision_locator@))) {
                Some(i) => {
                    let deps = state.dependencies@[i].deps@;
                    let slice = spec_page_slice(
                        deps,
                        spec_or_default(query.page, DEFAULT_PAGE),
                        spec_or_default(query.count, DEFAULT_DEPENDENCY_COUNT),
                    );
                    &&& r.count == deps.len()
                    &&& r.dependencies@.len() == slice.len()
                    &&& (forall|k: int|
                        0 <= k < slice.len() ==> (#[trigger] r.dependencies@[k])@ == slice[k]@)
                },
                None => r.count == 0 && r.dependencies@.len() == 0,
            }
        }),
{
    let decoded = percent_decode(raw_revision_locator);
    let p = or_default(query.page, DEFAULT_PAGE);
    let c = or_default(query.count, DEFAULT_DEPENDENCY_COUNT);
    match state.get_dependencies(decoded.as_str()) {
        None => DependenciesPage { dependencies: Vec::new(), count: 0 },
        Some(all) => {
            let total = all.len() as u64;
            let ghost deps = all@;
            let ghost slice = spec_page_slice(deps, p, c);
            let mut out: Vec<Dependency> = Vec::new();
            if p >= 1 {
                let pm1 = p as u64 - 1;
                let cw = c as u64;
                assert(pm1 * cw <= 0xffff_fffeu64 * 0xffff_ffffu64) by (nonlinear_arith)
                    requires
                        pm1 <= 0xffff_fffeu64,
                        cw <= 0xffff_ffffu64,
                ;
                let start = pm1 * cw;
                if start < all.len() as u64 {
                    let s = start as usize;
                    let e = if c as usize <= all.len() - s {
                        s + c as usize
                    } else {
                        all.len()
                    };
                    proof {
                        assert(slice == deps.subrange(s as int, e as int));
                    }
                    let mut k = s;
                    while k < e
                        invariant
                            s <= k <= e <= all@.len(),
                            deps == all@,
                            slice == deps.subrange(s as int, e as int),
                            out@.len() == k - s,
                            forall|j: int|
                                0 <= j < out@.len() ==> (#[trigger] out@[j])@ == slice[j]@,
                        decreases e - k,
                    {
                        out.push(all[k].clone());
                        k = k + 1;
                    }
                    return DependenciesPage { dependencies: out, count: total };
                }
                proof {
                    assert(slice =~= Seq::<Dependency>::empty());
                }
                return DependenciesPage { dependencies: out, count: total };
            }
            proof {
                assert((p as int - 1) * (c as int) == -(c as int)) by (nonlinear_arith)
                    requires
                        p == 0,
                ;
                assert(slice =~= Seq::<Dependency>::empty());
            }
            DependenciesPage { dependencies: out, count: total }
        },
    }
}

/// The fixed body of the liveness probe.
pub fn health_check() -> (r: &'static str)
    ensures
        r@ == "ok"@,
{
    "ok"
}

} // verus!
