//! An in-process page source backed by [`MockState`]: the four resource
//! kinds implement the listing capability against it, each in the
//! pagination dialect its real endpoint uses, so that a client built on
//! the protocol can be exercised end to end without a network.

use vstd::prelude::*;

use crate::dependency::Dependency;
use crate::dependency::DependencyQuery;
use crate::error::FossaError;
use crate::grouping::branch_is;
use crate::grouping::filter_by_branch;
use crate::grouping::flatten_groups;
use crate::grouping::group_by_branch;
use crate::grouping::sort_revisions_by_time;
use crate::grouping::spec_branches;
use crate::grouping::spec_flatten_grouped;
use crate::grouping::spec_sorted_by_time;
use crate::grouping::RevisionGroup;
use crate::handlers::spec_page_slice;
use crate::issue::spec_category_name;
use crate::issue::Issue;
use crate::issue::IssueListQuery;
use crate::listing::Get;
use crate::listing::List;
use crate::listing::PageRequest;
use crate::listing::Update;
use crate::pagination::Page;
use crate::project::Project;
use crate::project::ProjectListQuery;
use crate::project::ProjectUpdateParams;
use crate::revision::Revision;
use crate::revision::RevisionQuery;
use crate::state::entry_has_key;
use crate::state::find_by;
use crate::state::issue_has_key;
use crate::state::project_has_key;
use crate::state::revision_has_key;
use crate::state::MockState;

verus! {

/// A page source that answers from a [`MockState`] directly, with a
/// ghost count of the page requests made through it and, per resource
/// kind, a ghost log of the page requests it has answered.
pub struct MockApi {
    /// The state answered from.
    pub state: MockState,
    /// How many page requests have been issued through this source.
    pub calls: Ghost<nat>,
    /// The project page requests answered, in order.
    pub project_log: Ghost<Seq<PageRequest<ProjectListQuery, Project>>>,
    /// The revision page requests answered, in order.
    pub revision_log: Ghost<Seq<PageRequest<RevisionQuery, Revision>>>,
    /// The issue page requests answered, in order.
    pub issue_log: Ghost<Seq<PageRequest<IssueListQuery, Issue>>>,
    /// The dependency page requests answered, in order.
    pub dependency_log: Ghost<Seq<PageRequest<DependencyQuery, Dependency>>>,
}

impl MockApi {
    /// Wrap a state as a page source.
    pub fn new(state: MockState) -> (r: Self)
        ensures
            r.state == state,
            r.calls@ == 0,
            r.project_log@ == Seq::<PageRequest<ProjectListQuery, Project>>::empty(),
            r.revision_log@ == Seq::<PageRequest<RevisionQuery, Revision>>::empty(),
            r.issue_log@ == Seq::<PageRequest<IssueListQuery, Issue>>::empty(),
            r.dependency_log@ == Seq::<PageRequest<DependencyQuery, Dependency>>::empty(),
    {
        MockApi {
            state,
            calls: Ghost(0),
            project_log: Ghost(Seq::empty()),
            revision_log: Ghost(Seq::empty()),
            issue_log: Ghost(Seq::empty()),
            dependency_log: Ghost(Seq::empty()),
        }
    }
}

impl List<MockApi> for Project {
    type Query = ProjectListQuery;

    open spec fn calls(source: MockApi) -> nat {
        source.calls@
    }

    open spec fn fetched(source: MockApi) -> Seq<PageRequest<ProjectListQuery, Project>> {
        source.project_log@
    }

    /// One page of the project listing in the counted dialect: the full
    /// filtered set is computed, its length reported as the total, and
    /// the requested window sliced out of it.
    fn list_page(source: &mut MockApi, query: &ProjectListQuery, page: u32, count: u32) -> (r:
        Result<Page<Project>, FossaError>)
        ensures
            final(source).state == old(source).state,
            ({
                let fil = old(source).state.filtered_projects(
                    match query.title {
                        Some(t) => Some(t@),
                        None => None,
                    },
                );
                let slice = spec_page_slice(fil, page, count);
                r matches Ok(pg) && {
                    &&& pg.items@.len() == slice.len()
                    &&& (forall|k: int|
                        0 <= k < slice.len() ==> (#[trigger] pg.items@[k])@ == slice[k]@)
                    &&& pg.total == Some(fil.len() as u64)
                    &&& pg.page == page
                    &&& pg.count == count
                    &&& pg.wf()
                }
            }),
    {
        let resp = crate::handlers::list_projects_response(
            &source.state,
            &crate::handlers::ListProjectsQuery {
                page: Some(page),
                count: Some(count),
                title: match &query.title {
                    Some(t) => Some(t.clone()),
                    None => None,
                },
            },
        );
        let pg = Page::new(resp.projects, page, count, Some(resp.total));
        proof {
            source.calls@ = source.calls@ + 1;
            source.project_log@ = source.project_log@.push(
                PageRequest { page, count, query: *query, items: pg.items@, has_more: pg.has_more },
            );
        }
        Ok(pg)
    }
}

impl List<MockApi> for Issue {
    type Query = IssueListQuery;

    open spec fn calls(source: MockApi) -> nat {
        source.calls@
    }

    open spec fn fetched(source: MockApi) -> Seq<PageRequest<IssueListQuery, Issue>> {
        source.issue_log@
    }

    /// One page of the issue listing in the uncounted dialect: the same
    /// slicing, but the page carries no total, so `has_more` falls back
    /// to the full-page heuristic.
    fn list_page(source: &mut MockApi, query: &IssueListQuery, page: u32, count: u32) -> (r: Result<
        Page<Issue>,
        FossaError,
    >)
        ensures
            final(source).state == old(source).state,
            ({
                let fil = old(source).state.filtered_issues(
                    match query.category {
                        Some(c) => Some(spec_category_name(c)),
                        None => None,
                    },
                );
                let slice = spec_page_slice(fil, page, count);
                r matches Ok(pg) && {
                    &&& pg.items@.len() == slice.len()
                    &&& (forall|k: int|
                        0 <= k < slice.len() ==> (#[trigger] pg.items@[k])@ == slice[k]@)
                    &&& pg.total is None
                    &&& pg.page == page
                    &&& pg.count == count
                    &&& pg.wf()
                }
            }),
    {
        let resp = crate::handlers::list_issues_response(
            &source.state,
            &crate::handlers::ListIssuesQuery {
                page: Some(page),
                count: Some(count),
                category: match &query.category {
                    Some(c) => Some(c.name().to_owned()),
                    None => None,
                },
                scope_type: None,
                scope_id: None,
            },
        );
        let pg = Page::new(resp.issues, page, count, None);
        proof {
            source.calls@ = source.calls@ + 1;
            source.issue_log@ = source.issue_log@.push(
                PageRequest { page, count, query: *query, items: pg.items@, has_more: pg.has_more },
            );
        }
        Ok(pg)
    }
}

impl List<MockApi> for Dependency {
    type Query = DependencyQuery;

    open spec fn calls(source: MockApi) -> nat {
        source.calls@
    }

    open spec fn fetched(source: MockApi) -> Seq<PageRequest<DependencyQuery, Dependency>> {
        source.dependency_log@
    }

    /// One page of a revision's dependency listing in the counted
    /// dialect; a revision with no recorded list yields an empty page
    /// with total 0, not an error.
    fn list_page(source: &mut MockApi, query: &DependencyQuery, page: u32, count: u32) -> (r:
        Result<Page<Dependency>, FossaError>)
        ensures
            final(source).state == old(source).state,
            ({
                match find_by(old(source).state.dependencies@, entry_has_key(query.0@)) {
                    Some(i) => {
                        let deps = old(source).state.dependencies@[i].deps@;
                        let slice = spec_page_slice(deps, page, count);
                        r matches Ok(pg) && {
                            &&& pg.items@.len() == slice.len()
                            &&& (forall|k: int|
                                0 <= k < slice.len() ==> (#[trigger] pg.items@[k])@ == slice[k]@)
                            &&& pg.total == Some(deps.len() as u64)
                            &&& pg.page == page
                            &&& pg.count == count
                            &&& pg.wf()
                        }
                    },
                    None => r matches Ok(pg) && {
                        &&& pg.items@.len() == 0
                        &&& pg.total == Some(0u64)
                        &&& pg.page == page
                        &&& pg.count == count
                        &&& pg.wf()
                    },
                }
            }),
    {
        let mut out: Vec<Dependency> = Vec::new();
        let mut total: u64 = 0;
        match source.state.get_dependencies(query.0.as_str()) {
            None => {},
            Some(all) => {
                total = all.len() as u64;
                let ghost deps = all@;
                let ghost slice = spec_page_slice(deps, page, count);
                if page >= 1 {
                    let pm1 = page as u64 - 1;
                    let cw = count as u64;
                    assert(pm1 * cw <= 0xffff_fffeu64 * 0xffff_ffffu64) by (nonlinear_arith)
                        requires
                            pm1 <= 0xffff_fffeu64,
                            cw <= 0xffff_ffffu64,
                    ;
                    let start = pm1 * cw;
                    if start < all.len() as u64 {
                        let s = start as usize;
                        let e = if count as usize <= all.len() - s {
                            s + count as usize
                        } else {
                            all.len()
                        };
                        proof {
                            assert(slice == deps.subrange(s as int, e as int));
                        }
                        let mut k = s;
                        while k < e
                            invariant
                                s <= k <= e <= all@.len(),
                                deps == all@,
                                slice == deps.subrange(s as int, e as int),
                                out@.len() == k - s,
                                forall|j: int|
                                    0 <= j < out@.len() ==> (#[trigger] out@[j])@ == slice[j]@,
                            decreases e - k,
                        {
                            out.push(all[k].clone());
                            k = k + 1;
                        }
                    } else {
                        proof {
                            assert(slice =~= Seq::<Dependency>::empty());
                        }
                    }
                } else {
                    proof {
                        assert((page as int - 1) * (count as int) == -(count as int))
                            by (nonlinear_arith)
                            requires
                                page == 0,
                        ;
                        assert(slice =~= Seq::<Dependency>::empty());
                    }
                }
            },
        }
        let pg = Page::new(out, page, count, Some(total));
        proof {
            source.calls@ = source.calls@ + 1;
            source.dependency_log@ = source.dependency_log@.push(
                PageRequest { page, count, query: *query, items: pg.items@, has_more: pg.has_more },
            );
        }
        Ok(pg)
    }
}

impl List<MockApi> for Revision {
    type Query = RevisionQuery;

    open spec fn calls(source: MockApi) -> nat {
        source.calls@
    }

    open spec fn fetched(source: MockApi) -> Seq<PageRequest<RevisionQuery, Revision>> {
        source.revision_log@
    }

    /// One page of a project's revision listing, derived from the
    /// grouped, unpaginated dialect: the buckets are flattened,
    /// optionally filtered by branch, sorted by creation time newest
    /// first (stable), and sliced locally; the flattened filtered length
    /// serves as the total.
    fn list_page(source: &mut MockApi, query: &RevisionQuery, page: u32, count: u32) -> (r: Result<
        Page<Revision>,
        FossaError,
    >)
        ensures
            final(source).state == old(source).state,
            ({
                let fil = old(source).state.revisions_of_project(query.0@);
                let flat = spec_flatten_grouped(fil);
                let filtered = (match query.1.branch {
                    Some(b) => flat.filter(branch_is(b@)),
                    None => flat,
                });
                let sorted = spec_sorted_by_time(filtered);
                let slice = spec_page_slice(sorted, page, count);
                r matches Ok(pg) && {
                    &&& pg.items@ == slice
                    &&& pg.total == Some(filtered.len() as u64)
                    &&& pg.page == page
                    &&& pg.count == count
                    &&& pg.wf()
                }
            }),
    {
        let ghost fil = source.state.revisions_of_project(query.0@);
        let matching = source.state.list_revisions_for_project(query.0.as_str());
        let mut owned: Vec<Revision> = Vec::new();
        let n = matching.len();
        let mut i: usize = 0;
        while i < n
            invariant
                i <= n,
                n == matching@.len(),
                n == fil.len(),
                forall|j: int| 0 <= j < n ==> *(#[trigger] matching@[j]) == fil[j],
                owned@ =~= fil.subrange(0, i as int),
            decreases n - i,
        {
            owned.push(matching[i].clone());
            proof {
                assert(owned@ =~= fil.subrange(0, i + 1));
            }
            i = i + 1;
        }
        proof {
            assert(owned@ =~= fil);
        }
        let groups: Vec<RevisionGroup> = group_by_branch(&owned);
        let flat = flatten_groups(&groups);
        proof {
            assert(groups@.map_values(|g: RevisionGroup| g@.revisions) =~= spec_branches(
                fil,
            ).map_values(|b: Seq<char>| fil.filter(branch_is(b))));
            assert(flat@ == spec_flatten_grouped(fil));
        }
        let filtered = filter_by_branch(
            flat,
            match &query.1.branch {
                Some(b) => Some(b.as_str()),
                None => None,
            },
        );
        let total = filtered.len() as u64;
        let sorted = sort_revisions_by_time(filtered);
        let out = crate::grouping::slice_revision_page(&sorted, page, count);
        let pg = Page::new(out, page, count, Some(total));
        proof {
            source.calls@ = source.calls@ + 1;
            source.revision_log@ = source.revision_log@.push(
                PageRequest { page, count, query: *query, items: pg.items@, has_more: pg.has_more },
            );
        }
        Ok(pg)
    }
}

impl Get<MockApi> for Project {
    type Id = String;

    /// Exact key lookup of a project; an absent key is a not-found
    /// error, never an empty success.
    fn get(source: &mut MockApi, id: String) -> (r: Result<Project, FossaError>)
        ensures
            final(source).state == old(source).state,
            match find_by(old(source).state.projects@, project_has_key(id@)) {
                Some(i) => r matches Ok(p) && p@ == old(source).state.projects@[i]@,
                None => r matches Err(e) && e matches FossaError::NotFound { entity_type, id: k }
                    && entity_type@ == "Project"@ && k@ == id@,
            },
    {
        match source.state.get_project(id.as_str()) {
            Some(p) => Ok(p.clone()),
            None => Err(FossaError::NotFound { entity_type: "Project".to_owned(), id }),
        }
    }
}

impl Get<MockApi> for Revision {
    type Id = String;

    /// Exact key lookup of a revision; an absent key is a not-found
    /// error.
    fn get(source: &mut MockApi, id: String) -> (r: Result<Revision, FossaError>)
        ensures
            final(source).state == old(source).state,
            match find_by(old(source).state.revisions@, revision_has_key(id@)) {
                Some(i) => r matches Ok(v) && v == old(source).state.revisions@[i],
                None => r matches Err(e) && e matches FossaError::NotFound { entity_type, id: k }
                    && entity_type@ == "Revision"@ && k@ == id@,
            },
    {
        match source.state.get_revision(id.as_str()) {
            Some(v) => Ok(v.clone()),
            None => Err(FossaError::NotFound { entity_type: "Revision".to_owned(), id }),
        }
    }
}

impl Get<MockApi> for Issue {
    type Id = u64;

    /// Exact key lookup of an issue by numeric id; an absent key is a
    /// not-found error.
    fn get(source: &mut MockApi, id: u64) -> (r: Result<Issue, FossaError>)
        ensures
            final(source).state == old(source).state,
            match find_by(old(source).state.issues@, issue_has_key(id)) {
                Some(i) => r matches Ok(x) && x@ == old(source).state.issues@[i]@,
                None => r matches Err(e) && e matches FossaError::NotFound { entity_type, .. }
                    && entity_type@ == "Issue"@,
            },
    {
        match source.state.get_issue(id) {
            Some(x) => Ok(x.clone()),
            None => Err(
                FossaError::NotFound { entity_type: "Issue".to_owned(), id: "".to_owned() },
            ),
        }
    }
}

impl Update<MockApi> for Project {
    type Id = String;

    type Params = ProjectUpdateParams;

    /// Partial update of a project: title, url and public-visibility are
    /// applied when present; an absent key is a not-found error and
    /// leaves the state unchanged.
    fn update(source: &mut MockApi, id: String, params: ProjectUpdateParams) -> (r: Result<
        Project,
        FossaError,
    >)
        ensures
            old(source).state.wf() ==> final(source).state.wf(),
            final(source).state.revisions == old(source).state.revisions,
            final(source).state.dependencies == old(source).state.dependencies,
            final(source).state.issues == old(source).state.issues,
            match find_by(old(source).state.projects@, project_has_key(id@)) {
                None => {
                    &&& final(source).state.projects == old(source).state.projects
                    &&& r matches Err(e) && e matches FossaError::NotFound { entity_type, .. }
                        && entity_type@ == "Project"@
                },
                Some(i) => {
                    let before = old(source).state.projects@[i];
                    let after = final(source).state.projects@[i];
                    &&& r matches Ok(p) && p@ == after@
                    &&& final(source).state.projects@.len() == old(source).state.projects@.len()
                    &&& (forall|j: int|
                        0 <= j < old(source).state.projects@.len() && j != i
                            ==> final(source).state.projects@[j] == old(source).state.projects@[j])
                    &&& after.id == before.id
                    &&& after.title == (match params.title {
                        Some(t) => t,
                        None => before.title,
                    })
                    &&& after.url == (match params.url {
                        Some(u) => Some(u),
                        None => before.url,
                    })
                    &&& after.public == (match params.public {
                        Some(b) => b,
                        None => before.public,
                    })
                    &&& after.branch == before.branch
                    &&& after.version == before.version
                    &&& after.project_type == before.project_type
                    &&& after.scanned == before.scanned
                    &&& after.last_analyzed == before.last_analyzed
                    &&& after.issues == before.issues
                    &&& after.labels == before.labels
                    &&& after.teams == before.teams
                    &&& after.latest_revision == before.latest_revision
                    &&& after.latest_build_status == before.latest_build_status
                },
            },
    {
        match source.state.update_project(id.as_str(), params.title, params.url, params.public) {
            Some(p) => Ok(p.clone()),
            None => Err(FossaError::NotFound { entity_type: "Project".to_owned(), id }),
        }
    }
}

} // verus!
