//! The project resource: the top-level container for analyzed code.

use vstd::prelude::*;
use vstd::string::StrSliceExecFns;

use crate::strutil::first_index_of;
use crate::strutil::find_char;
use crate::strutil::lemma_first_index_of;

verus! {

/// Issue counts for a project, by category.
#[derive(Clone, Copy, Debug)]
pub struct ProjectIssues {
    /// Total number of issues.
    pub total: u32,
    /// Number of licensing issues.
    pub licensing: u32,
    /// Number of security issues.
    pub security: u32,
    /// Number of quality issues.
    pub quality: u32,
}

/// Latest revision information attached to a project.
#[derive(Debug)]
pub struct LatestRevision {
    /// The revision locator.
    pub locator: String,
    /// Revision message/description.
    pub message: Option<String>,
}

impl Clone for LatestRevision {
    fn clone(&self) -> (res: Self)
        ensures
            res == *self,
    {
        LatestRevision { locator: self.locator.clone(), message: clone_opt_string(&self.message) }
    }
}

/// A project.
///
/// Timestamps are carried as milliseconds since the Unix epoch.
#[derive(Debug)]
pub struct Project {
    /// The project locator (e.g., "custom+1/test-project").
    pub id: String,
    /// The project title.
    pub title: String,
    /// Default branch for this project.
    pub branch: Option<String>,
    /// Project version.
    pub version: Option<String>,
    /// Project type (e.g., "provided", "git").
    pub project_type: Option<String>,
    /// Project URL.
    pub url: Option<String>,
    /// Whether the project is public.
    pub public: bool,
    /// When the project was last scanned.
    pub scanned: Option<i64>,
    /// When the project was last analyzed.
    pub last_analyzed: Option<i64>,
    /// Issue counts by category.
    pub issues: Option<ProjectIssues>,
    /// Project labels.
    pub labels: Vec<String>,
    /// Teams associated with this project.
    pub teams: Vec<String>,
    /// Latest revision information.
    pub latest_revision: Option<LatestRevision>,
    /// Latest build status.
    pub latest_build_status: Option<String>,
}

/// The mathematical model of a [`Project`]: the same fields, with the
/// label and team vectors abstracted to sequences.
pub struct ProjectView {
    pub id: String,
    pub title: String,
    pub branch: Option<String>,
    pub version: Option<String>,
    pub project_type: Option<String>,
    pub url: Option<String>,
    pub public: bool,
    pub scanned: Option<i64>,
    pub last_analyzed: Option<i64>,
    pub issues: Option<ProjectIssues>,
    pub labels: Seq<String>,
    pub teams: Seq<String>,
    pub latest_revision: Option<LatestRevision>,
    pub latest_build_status: Option<String>,
}

impl View for Project {
    type V = ProjectView;

    open spec fn view(&self) -> ProjectView {
        ProjectView {
            id: self.id,
            title: self.title,
            branch: self.branch,
            version: self.version,
            project_type: self.project_type,
            url: self.url,
            public: self.public,
            scanned: self.scanned,
            last_analyzed: self.last_analyzed,
            issues: self.issues,
            labels: self.labels@,
            teams: self.teams@,
            latest_revision: self.latest_revision,
            latest_build_status: self.latest_build_status,
        }
    }
}

impl Clone for Project {
    fn clone(&self) -> (res: Self)
        ensures
            res@ == self@,
    {
        let res = Project {
            id: self.id.clone(),
            title: self.title.clone(),
            branch: clone_opt_string(&self.branch),
            version: clone_opt_string(&self.version),
            project_type: clone_opt_string(&self.project_type),
            url: clone_opt_string(&self.url),
            public: self.public,
            scanned: self.scanned,
            last_analyzed: self.last_analyzed,
            issues: self.issues,
            labels: clone_vec_string(&self.labels),
            teams: clone_vec_string(&self.teams),
            latest_revision: match &self.latest_revision {
                Some(lr) => Some(lr.clone()),
                None => None,
            },
            latest_build_status: clone_opt_string(&self.latest_build_status),
        };
        res
    }
}

impl Project {
    /// The project locator (alias for id).
    pub fn locator(&self) -> (r: &str)
        ensures
            r@ == self.id@,
    {
        self.id.as_str()
    }

    /// The fetcher tag of the locator: the characters before the first
    /// `+`, or the whole locator if it has none.
    pub fn fetcher(&self) -> (r: Option<&str>)
        ensures
            r is Some,
            match first_index_of(self.id@, '+') {
                Some(i) => r->Some_0@ == self.id@.subrange(0, i),
                None => r->Some_0@ == self.id@,
            },
    {
        proof {
            lemma_first_index_of(self.id@, '+');
        }
        match find_char(self.id.as_str(), '+') {
            Some(i) => Some(self.id.as_str().substring_char(0, i)),
            None => Some(self.id.as_str()),
        }
    }

    /// Whether this project has been analyzed (has a latest revision).
    pub fn is_analyzed(&self) -> (r: bool)
        ensures
            r == (self.latest_revision is Some),
    {
        self.latest_revision.is_some()
    }

    /// The latest revision locator, if the project has one.
    pub fn latest_revision_locator(&self) -> (r: Option<&str>)
        ensures
            match self.latest_revision {
                Some(lr) => r is Some && r->Some_0@ == lr.locator@,
                None => r is None,
            },
    {
        match &self.latest_revision {
            Some(lr) => Some(lr.locator.as_str()),
            None => None,
        }
    }

    /// Fetch all revisions of this project from a page source, with no
    /// filters; every page request carries this project's locator.
    pub fn revisions<S>(&self, source: &mut S) -> (r: Result<
        Vec<crate::revision::Revision>,
        crate::error::FossaError,
    >) where crate::revision::Revision: crate::listing::List<
        S,
        Query = (String, crate::revision::RevisionListQuery),
    >
        ensures
            crate::listing::walk_result::<S, crate::revision::Revision>(
                *old(source),
                *final(source),
                r,
            ),
            forall|i: int|
                0 <= i < crate::listing::walk_log::<S, crate::revision::Revision>(
                    *old(source),
                    *final(source),
                ).len() ==> (#[trigger] crate::listing::walk_log::<S, crate::revision::Revision>(
                    *old(source),
                    *final(source),
                )[i]).query.0@ == self.id@,
    {
        crate::revision::get_revisions(
            source,
            self.id.as_str(),
            crate::revision::RevisionListQuery::default(),
        )
    }

    /// Fetch all revisions of this project from a page source, with the
    /// given filters; every page request carries this project's locator
    /// and those filters.
    pub fn revisions_with_query<S>(
        &self,
        source: &mut S,
        query: crate::revision::RevisionListQuery,
    ) -> (r: Result<Vec<crate::revision::Revision>, crate::error::FossaError>) where crate::revision::Revision: crate::listing::List<
        S,
        Query = (String, crate::revision::RevisionListQuery),
    >
        ensures
            crate::listing::walk_result::<S, crate::revision::Revision>(
                *old(source),
                *final(source),
                r,
            ),
            forall|i: int|
                0 <= i < crate::listing::walk_log::<S, crate::revision::Revision>(
                    *old(source),
                    *final(source),
                ).len() ==> (#[trigger] crate::listing::walk_log::<S, crate::revision::Revision>(
                    *old(source),
                    *final(source),
                )[i]).query.0@ == self.id@ && crate::listing::walk_log::<
                    S,
                    crate::revision::Revision,
                >(*old(source), *final(source))[i].query.1 == query,
    {
        crate::revision::get_revisions(source, self.id.as_str(), query)
    }

    /// Fetch the latest revision as a full record; `None` when the
    /// project has no revisions.
    pub fn get_latest_revision<S>(&self, source: &mut S) -> Result<
        Option<crate::revision::Revision>,
        crate::error::FossaError,
    > where crate::revision::Revision: crate::listing::Get<S, Id = String> {
        match &self.latest_revision {
            Some(lr) => match crate::revision::get_revision(source, lr.locator.as_str()) {
                Ok(v) => Ok(Some(v)),
                Err(e) => Err(e),
            },
            None => Ok(None),
        }
    }
}

/// Query parameters for listing projects.
#[derive(Debug)]
pub struct ProjectListQuery {
    /// Filter by project title (case-insensitive partial match).
    pub title: Option<String>,
    /// Sort order.
    pub sort: Option<String>,
}

impl Clone for ProjectListQuery {
    fn clone(&self) -> (res: Self)
        ensures
            res == *self,
    {
        ProjectListQuery { title: clone_opt_string(&self.title), sort: clone_opt_string(&self.sort) }
    }
}

impl Default for ProjectListQuery {
    /// A query with no filter and no explicit sort order.
    fn default() -> (r: Self)
        ensures
            r.title is None,
            r.sort is None,
    {
        ProjectListQuery { title: None, sort: None }
    }
}

/// Parameters for updating a project; each field is independently
/// optional, and an absent field leaves the stored value untouched.
#[derive(Debug)]
pub struct ProjectUpdateParams {
    /// New project title.
    pub title: Option<String>,
    /// New project description.
    pub description: Option<String>,
    /// New project URL.
    pub url: Option<String>,
    /// Whether the project is public.
    pub public: Option<bool>,
    /// Policy ID to apply.
    pub policy_id: Option<u64>,
    /// Default branch.
    pub default_branch: Option<String>,
}

impl Clone for ProjectUpdateParams {
    fn clone(&self) -> (res: Self)
        ensures
            res == *self,
    {
        ProjectUpdateParams {
            title: clone_opt_string(&self.title),
            description: clone_opt_string(&self.description),
            url: clone_opt_string(&self.url),
            public: self.public,
            policy_id: self.policy_id,
            default_branch: clone_opt_string(&self.default_branch),
        }
    }
}

impl Default for ProjectUpdateParams {
    /// Parameters that change nothing.
    fn default() -> (r: Self)
        ensures
            r.title is None,
            r.description is None,
            r.url is None,
            r.public is None,
            r.policy_id is None,
            r.default_branch is None,
    {
        ProjectUpdateParams {
            title: None,
            description: None,
            url: None,
            public: None,
            policy_id: None,
            default_branch: None,
        }
    }
}

/// Clone an optional string, preserving the value.
pub(crate) fn clone_opt_string(o: &Option<String>) -> (r: Option<String>)
    ensures
        r == *o,
{
    match o {
        Some(s) => Some(s.clone()),
        None => None,
    }
}

/// Clone a vector of strings, preserving its contents.
pub(crate) fn clone_vec_string(v: &Vec<String>) -> (r: Vec<String>)
    ensures
        r@ == v@,
{
    let mut out: Vec<String> = Vec::new();
    let n = v.len();
    for i in 0..n
        invariant
            n == v@.len(),
            out@ =~= v@.subrange(0, i as int),
    {
        out.push(v[i].clone());
        proof {
            assert(out@ =~= v@.subrange(0, i + 1));
        }
    }
    proof {
        assert(out@ =~= v@);
    }
    out
}

} // verus!
