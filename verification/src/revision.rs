//! The revision resource: a snapshot of a project at a point in time,
//! typically corresponding to a branch, tag, or commit.

use vstd::prelude::*;
use vstd::string::StrSliceExecFns;

use crate::project::clone_opt_string;
use crate::strutil::first_index_of;
use crate::strutil::find_char;
use crate::strutil::lemma_first_index_of;

verus! {

/// Status of a revision's analysis.
#[derive(Clone, Copy, Debug, PartialEq, Eq, Structural)]
pub enum RevisionStatus {
    /// Analysis is pending.
    Pending,
    /// Analysis is running.
    Running,
    /// Analysis completed successfully.
    Passed,
    /// Analysis failed.
    Failed,
    /// Analysis was skipped.
    Skipped,
    /// Unknown status.
    Unknown,
}

impl Default for RevisionStatus {
    /// A fresh revision starts out pending.
    fn default() -> (r: Self)
        ensures
            r == RevisionStatus::Pending,
    {
        RevisionStatus::Pending
    }
}

/// Issue counts for a revision.
#[derive(Clone, Copy, Debug)]
pub struct RevisionIssues {
    /// Total number of issues.
    pub total: u32,
    /// Number of licensing issues.
    pub licensing: u32,
    /// Number of security/vulnerability issues.
    pub security: u32,
    /// Number of quality issues.
    pub quality: u32,
}

/// Dependency statistics for a revision.
#[derive(Clone, Copy, Debug)]
pub struct RevisionStats {
    /// Total dependency count.
    pub total_dependencies: u32,
    /// Direct dependency count.
    pub direct_dependencies: u32,
    /// Transitive dependency count.
    pub transitive_dependencies: u32,
}

/// A project revision.
///
/// Timestamps are carried as milliseconds since the Unix epoch.
#[derive(Debug)]
pub struct Revision {
    /// The revision locator (e.g., "custom+1/test$main").
    pub locator: String,
    /// The branch, tag, or commit reference.
    pub ref_name: Option<String>,
    /// Revision message (typically commit message).
    pub message: Option<String>,
    /// When the revision was created/uploaded.
    pub created_at: Option<i64>,
    /// When the revision was last updated.
    pub updated_at: Option<i64>,
    /// Build/analysis status.
    pub status: Option<RevisionStatus>,
    /// Issue counts for this revision.
    pub issues: Option<RevisionIssues>,
    /// Dependency statistics.
    pub stats: Option<RevisionStats>,
    /// Whether this is the default/latest revision.
    pub is_default: bool,
    /// Policy ID applied to this revision.
    pub policy_id: Option<u64>,
}

impl Clone for Revision {
    fn clone(&self) -> (res: Self)
        ensures
            res == *self,
    {
        Revision {
            locator: self.locator.clone(),
            ref_name: clone_opt_string(&self.ref_name),
            message: clone_opt_string(&self.message),
            created_at: self.created_at,
            updated_at: self.updated_at,
            status: self.status,
            issues: self.issues,
            stats: self.stats,
            is_default: self.is_default,
            policy_id: self.policy_id,
        }
    }
}

impl Revision {
    /// The project locator part of the revision locator: the characters
    /// before the first `$`, or the whole locator if it has none.
    pub fn project_locator(&self) -> (r: Option<&str>)
        ensures
            r is Some,
            match first_index_of(self.locator@, '$') {
                Some(i) => r->Some_0@ == self.locator@.subrange(0, i),
                None => r->Some_0@ == self.locator@,
            },
    {
        proof {
            lemma_first_index_of(self.locator@, '$');
        }
        match find_char(self.locator.as_str(), '$') {
            Some(i) => Some(self.locator.as_str().substring_char(0, i)),
            None => Some(self.locator.as_str()),
        }
    }

    /// The ref (branch/tag/commit) part of the locator: the characters
    /// between the first `$` and the next `$` or the end; `None` when the
    /// locator holds no `$` at all.
    pub fn ref_from_locator(&self) -> (r: Option<&str>)
        ensures
            match first_index_of(self.locator@, '$') {
                Some(i) => {
                    let rest = self.locator@.skip(i + 1);
                    r is Some && match first_index_of(rest, '$') {
                        Some(j) => r->Some_0@ == rest.subrange(0, j),
                        None => r->Some_0@ == rest,
                    }
                },
                None => r is None,
            },
    {
        proof {
            lemma_first_index_of(self.locator@, '$');
        }
        let s = self.locator.as_str();
        match find_char(s, '$') {
            None => None,
            Some(i) => {
                let n = s.unicode_len();
                let rest = s.substring_char(i + 1, n);
                proof {
                    assert(rest@ == self.locator@.subrange(i + 1, n as int));
                    assert(rest@ =~= self.locator@.skip(i + 1));
                    lemma_first_index_of(rest@, '$');
                }
                match find_char(rest, '$') {
                    Some(j) => Some(rest.substring_char(0, j)),
                    None => Some(rest),
                }
            },
        }
    }

    /// The fetcher tag of the locator: the characters before the first
    /// `+`, or the whole locator if it has none.
    pub fn fetcher(&self) -> (r: Option<&str>)
        ensures
            r is Some,
            match first_index_of(self.locator@, '+') {
                Some(i) => r->Some_0@ == self.locator@.subrange(0, i),
                None => r->Some_0@ == self.locator@,
            },
    {
        proof {
            lemma_first_index_of(self.locator@, '+');
        }
        match find_char(self.locator.as_str(), '+') {
            Some(i) => Some(self.locator.as_str().substring_char(0, i)),
            None => Some(self.locator.as_str()),
        }
    }

    /// Whether the revision analysis has completed successfully.
    pub fn is_analyzed(&self) -> (r: bool)
        ensures
            r == (self.status == Some(RevisionStatus::Passed)),
    {
        match self.status {
            Some(RevisionStatus::Passed) => true,
            _ => false,
        }
    }

    /// Whether the revision has any issues.
    pub fn has_issues(&self) -> (r: bool)
        ensures
            r == match self.issues {
                Some(i) => i.total > 0,
                None => false,
            },
    {
        match &self.issues {
            Some(i) => i.total > 0,
            None => false,
        }
    }

    /// Direct dependency count, 0 when no statistics are recorded.
    pub fn direct_dependency_count(&self) -> (r: u32)
        ensures
            r == match self.stats {
                Some(s) => s.direct_dependencies,
                None => 0u32,
            },
    {
        match &self.stats {
            Some(s) => s.direct_dependencies,
            None => 0,
        }
    }

    /// Total dependency count, 0 when no statistics are recorded.
    pub fn total_dependency_count(&self) -> (r: u32)
        ensures
            r == match self.stats {
                Some(s) => s.total_dependencies,
                None => 0u32,
            },
    {
        match &self.stats {
            Some(s) => s.total_dependencies,
            None => 0,
        }
    }
}

/// Query parameters for listing revisions of a project.
#[derive(Debug)]
pub struct RevisionListQuery {
    /// Filter by branch/ref name.
    pub branch: Option<String>,
    /// Filter by status.
    pub status: Option<RevisionStatus>,
    /// Sort order (e.g., "created_at", "-created_at").
    pub sort: Option<String>,
    /// Include only default/latest revisions per branch.
    pub default_only: Option<bool>,
}

impl Clone for RevisionListQuery {
    fn clone(&self) -> (res: Self)
        ensures
            res == *self,
    {
        RevisionListQuery {
            branch: clone_opt_string(&self.branch),
            status: self.status,
            sort: clone_opt_string(&self.sort),
            default_only: self.default_only,
        }
    }
}

impl Default for RevisionListQuery {
    /// A query with no filters.
    fn default() -> (r: Self)
        ensures
            r.branch is None,
            r.status is None,
            r.sort is None,
            r.default_only is None,
    {
        RevisionListQuery { branch: None, status: None, sort: None, default_only: None }
    }
}

/// Query type for revision listing: the project locator together with
/// the filters.
pub type RevisionQuery = (String, RevisionListQuery);

impl Revision {
    /// Fetch all dependencies of this revision from a page source, with
    /// no filters; every page request carries this revision's locator.
    pub fn dependencies<S>(&self, source: &mut S) -> (r: Result<
        Vec<crate::dependency::Dependency>,
        crate::error::FossaError,
    >) where crate::dependency::Dependency: crate::listing::List<
        S,
        Query = (String, crate::dependency::DependencyListQuery),
    >
        ensures
            crate::listing::walk_result::<S, crate::dependency::Dependency>(
                *old(source),
                *final(source),
                r,
            ),
            forall|i: int|
                0 <= i < crate::listing::walk_log::<S, crate::dependency::Dependency>(
                    *old(source),
                    *final(source),
                ).len() ==> (
                #[trigger] crate::listing::walk_log::<S, crate::dependency::Dependency>(
                    *old(source),
                    *final(source),
                )[i]).query.0@ == self.locator@,
    {
        crate::dependency::get_dependencies(
            source,
            self.locator.as_str(),
            crate::dependency::DependencyListQuery::default(),
        )
    }

    /// Fetch all dependencies of this revision from a page source, with
    /// the given filters; every page request carries this revision's
    /// locator and those filters.
    pub fn dependencies_with_query<S>(
        &self,
        source: &mut S,
        query: crate::dependency::DependencyListQuery,
    ) -> (r: Result<Vec<crate::dependency::Dependency>, crate::error::FossaError>) where crate::dependency::Dependency: crate::listing::List<
        S,
        Query = (String, crate::dependency::DependencyListQuery),
    >
        ensures
            crate::listing::walk_result::<S, crate::dependency::Dependency>(
                *old(source),
                *final(source),
                r,
            ),
            forall|i: int|
                0 <= i < crate::listing::walk_log::<S, crate::dependency::Dependency>(
                    *old(source),
                    *final(source),
                ).len() ==> (
                #[trigger] crate::listing::walk_log::<S, crate::dependency::Dependency>(
                    *old(source),
                    *final(source),
                )[i]).query.0@ == self.locator@ && crate::listing::walk_log::<
                    S,
                    crate::dependency::Dependency,
                >(*old(source), *final(source))[i].query.1 == query,
    {
        crate::dependency::get_dependencies(source, self.locator.as_str(), query)
    }
}

/// Fetch all revisions of a project from a page source, walking every
/// page; [`crate::listing::walk_result`] ties the outcome to the pages
/// the source actually answered, and every request carries the given
/// project locator and filters.
pub fn get_revisions<S>(source: &mut S, project_locator: &str, query: RevisionListQuery) -> (r:
    Result<Vec<Revision>, crate::error::FossaError>) where Revision: crate::listing::List<
    S,
    Query = (String, RevisionListQuery),
>
    ensures
        <Revision as crate::listing::List<S>>::calls(*final(source))
            <= <Revision as crate::listing::List<S>>::calls(*old(source))
            + crate::pagination::MAX_PAGES as nat,
        crate::listing::walk_result::<S, Revision>(*old(source), *final(source), r),
        forall|i: int|
            0 <= i < crate::listing::walk_log::<S, Revision>(*old(source), *final(source)).len()
                ==> (#[trigger] crate::listing::walk_log::<S, Revision>(
                *old(source),
                *final(source),
            )[i]).query.0@ == project_locator@ && crate::listing::walk_log::<S, Revision>(
                *old(source),
                *final(source),
            )[i].query.1 == query,
{
    let q = (project_locator.to_owned(), query);
    crate::listing::list_all::<S, Revision>(source, &q)
}

/// Fetch a single page of revisions of a project from a page source:
/// one request, logged with exactly this page, count, locator and
/// filters when it succeeds.
pub fn get_revisions_page<S>(
    source: &mut S,
    project_locator: &str,
    query: RevisionListQuery,
    page: u32,
    count: u32,
) -> (r: Result<crate::pagination::Page<Revision>, crate::error::FossaError>) where Revision: crate::listing::List<
    S,
    Query = (String, RevisionListQuery),
>
    ensures
        <Revision as crate::listing::List<S>>::calls(*final(source))
            == <Revision as crate::listing::List<S>>::calls(*old(source)) + 1,
        r matches Ok(p) ==> ({
            let prior = <Revision as crate::listing::List<S>>::fetched(*old(source));
            let log = <Revision as crate::listing::List<S>>::fetched(*final(source));
            &&& log.len() == prior.len() + 1
            &&& log.subrange(0, prior.len() as int) == prior
            &&& log.last().page == page
            &&& log.last().count == count
            &&& log.last().query.0@ == project_locator@
            &&& log.last().query.1 == query
            &&& log.last().items == p.items@
            &&& log.last().has_more == p.has_more
        }),
        r is Err ==> <Revision as crate::listing::List<S>>::fetched(*final(source))
            == <Revision as crate::listing::List<S>>::fetched(*old(source)),
{
    let q = (project_locator.to_owned(), query);
    let r = <Revision as crate::listing::List<S>>::list_page(source, &q, page, count);
    proof {
        if r is Ok {
            assert(<Revision as crate::listing::List<S>>::fetched(*source).subrange(
                0,
                <Revision as crate::listing::List<S>>::fetched(*old(source)).len() as int,
            ) =~= <Revision as crate::listing::List<S>>::fetched(*old(source)));
        }
    }
    r
}

/// Fetch a single revision by locator from a source.
pub fn get_revision<S>(source: &mut S, revision_locator: &str) -> (r: Result<
    Revision,
    crate::error::FossaError,
>) where Revision: crate::listing::Get<S, Id = String> {
    <Revision as crate::listing::Get<S>>::get(source, revision_locator.to_owned())
}

} // verus!
