//! The issue resource: a vulnerability, licensing problem, or quality
//! concern detected in project dependencies.

use vstd::prelude::*;

use crate::project::clone_opt_string;
use crate::project::clone_vec_string;
use crate::strutil::str_eq;

verus! {

/// Source package information for an issue.
#[derive(Debug)]
pub struct IssueSource {
    /// Package locator (e.g., "npm+lodash$4.2.0").
    pub id: String,
    /// Package name.
    pub name: Option<String>,
    /// Package URL.
    pub url: Option<String>,
    /// Package version.
    pub version: Option<String>,
    /// Package manager (e.g., "npm", "maven").
    pub package_manager: Option<String>,
}

impl Clone for IssueSource {
    fn clone(&self) -> (res: Self)
        ensures
            res == *self,
    {
        IssueSource {
            id: self.id.clone(),
            name: clone_opt_string(&self.name),
            url: clone_opt_string(&self.url),
            version: clone_opt_string(&self.version),
            package_manager: clone_opt_string(&self.package_manager),
        }
    }
}

/// Dependency depth information for an issue.
#[derive(Clone, Copy, Debug)]
pub struct IssueDepths {
    /// Number of direct dependencies affected.
    pub direct: u32,
    /// Number of transitive (deep) dependencies affected.
    pub deep: u32,
}

impl Default for IssueDepths {
    /// No affected dependencies recorded.
    fn default() -> (r: Self)
        ensures
            r.direct == 0,
            r.deep == 0,
    {
        IssueDepths { direct: 0, deep: 0 }
    }
}

/// Status counts for an issue across projects.
#[derive(Clone, Copy, Debug)]
pub struct IssueStatuses {
    /// Number of projects where the issue is active.
    pub active: u32,
    /// Number of projects where the issue is ignored.
    pub ignored: u32,
}

impl Default for IssueStatuses {
    /// No status counts recorded.
    fn default() -> (r: Self)
        ensures
            r.active == 0,
            r.ignored == 0,
    {
        IssueStatuses { active: 0, ignored: 0 }
    }
}

/// Project information for an issue.
#[derive(Debug)]
pub struct IssueProject {
    /// Project locator.
    pub id: String,
    /// Issue status in this project.
    pub status: Option<String>,
    /// Dependency depth in this project.
    pub depth: Option<u32>,
    /// Project title.
    pub title: Option<String>,
}

impl Clone for IssueProject {
    fn clone(&self) -> (res: Self)
        ensures
            res == *self,
    {
        IssueProject {
            id: self.id.clone(),
            status: clone_opt_string(&self.status),
            depth: self.depth,
            title: clone_opt_string(&self.title),
        }
    }
}

/// Remediation information for a vulnerability.
#[derive(Debug)]
pub struct IssueRemediation {
    /// Version that partially fixes the issue.
    pub partial_fix: Option<String>,
    /// Version that completely fixes the issue.
    pub complete_fix: Option<String>,
    /// Upgrade distance for the partial fix (e.g., "PATCH", "MAJOR").
    pub partial_fix_distance: Option<String>,
    /// Upgrade distance for the complete fix.
    pub complete_fix_distance: Option<String>,
}

impl Clone for IssueRemediation {
    fn clone(&self) -> (res: Self)
        ensures
            res == *self,
    {
        IssueRemediation {
            partial_fix: clone_opt_string(&self.partial_fix),
            complete_fix: clone_opt_string(&self.complete_fix),
            partial_fix_distance: clone_opt_string(&self.partial_fix_distance),
            complete_fix_distance: clone_opt_string(&self.complete_fix_distance),
        }
    }
}

/// An issue: a vulnerability, licensing, or quality finding.
///
/// Timestamps are carried as milliseconds since the Unix epoch.
#[derive(Debug)]
pub struct Issue {
    /// Unique issue ID.
    pub id: u64,
    /// When the issue was first detected.
    pub created_at: Option<i64>,
    /// Issue category: "vulnerability", "licensing", or "quality".
    pub issue_type: String,
    /// The source package where the issue was found.
    pub source: IssueSource,
    /// Depth information (direct vs transitive).
    pub depths: IssueDepths,
    /// Status counts across projects.
    pub statuses: IssueStatuses,
    /// Projects affected by this issue.
    pub projects: Vec<IssueProject>,
    /// Vulnerability ID (e.g., "CVE-2018-16487_npm+lodash").
    pub vuln_id: Option<String>,
    /// Issue title.
    pub title: Option<String>,
    /// CVE identifier.
    pub cve: Option<String>,
    /// CVSS vector string.
    pub cvss_vector: Option<String>,
    /// Severity level: "critical", "high", "medium", "low".
    pub severity: Option<String>,
    /// Detailed description of the vulnerability.
    pub details: Option<String>,
    /// Remediation information (fix versions).
    pub remediation: Option<IssueRemediation>,
    /// CWE identifiers.
    pub cwes: Vec<String>,
    /// When the vulnerability was published.
    pub published: Option<i64>,
    /// Exploitability: "UNKNOWN", "POC", "MATURE".
    pub exploitability: Option<String>,
    /// License identifier (e.g., "GPL-3.0"), for licensing issues.
    pub license: Option<String>,
}

/// The mathematical model of an [`Issue`]: the same fields, with the
/// project and CWE vectors abstracted to sequences.
pub struct IssueView {
    pub id: u64,
    pub created_at: Option<i64>,
    pub issue_type: String,
    pub source: IssueSource,
    pub depths: IssueDepths,
    pub statuses: IssueStatuses,
    pub projects: Seq<IssueProject>,
    pub vuln_id: Option<String>,
    pub title: Option<String>,
    pub cve: Option<String>,
    pub cvss_vector: Option<String>,
    pub severity: Option<String>,
    pub details: Option<String>,
    pub remediation: Option<IssueRemediation>,
    pub cwes: Seq<String>,
    pub published: Option<i64>,
    pub exploitability: Option<String>,
    pub license: Option<String>,
}

impl View for Issue {
    type V = IssueView;

    open spec fn view(&self) -> IssueView {
        IssueView {
            id: self.id,
            created_at: self.created_at,
            issue_type: self.issue_type,
            source: self.source,
            depths: self.depths,
            statuses: self.statuses,
            projects: self.projects@,
            vuln_id: self.vuln_id,
            title: self.title,
            cve: self.cve,
            cvss_vector: self.cvss_vector,
            severity: self.severity,
            details: self.details,
            remediation: self.remediation,
            cwes: self.cwes@,
            published: self.published,
            exploitability: self.exploitability,
            license: self.license,
        }
    }
}

impl Clone for Issue {
    fn clone(&self) -> (res: Self)
        ensures
            res@ == self@,
    {
        Issue {
            id: self.id,
            created_at: self.created_at,
            issue_type: self.issue_type.clone(),
            source: self.source.clone(),
            depths: self.depths,
            statuses: self.statuses,
            projects: clone_issue_projects(&self.projects),
            vuln_id: clone_opt_string(&self.vuln_id),
            title: clone_opt_string(&self.title),
            cve: clone_opt_string(&self.cve),
            cvss_vector: clone_opt_string(&self.cvss_vector),
            severity: clone_opt_string(&self.severity),
            details: clone_opt_string(&self.details),
            remediation: match &self.remediation {
                Some(r) => Some(r.clone()),
                None => None,
            },
            cwes: clone_vec_string(&self.cwes),
            published: self.published,
            exploitability: clone_opt_string(&self.exploitability),
            license: clone_opt_string(&self.license),
        }
    }
}

/// Clone a vector of issue-project records, preserving its contents.
fn clone_issue_projects(v: &Vec<IssueProject>) -> (r: Vec<IssueProject>)
    ensures
        r@ == v@,
{
    let mut out: Vec<IssueProject> = Vec::new();
    let n = v.len();
    for i in 0..n
        invariant
            n == v@.len(),
            out@ =~= v@.subrange(0, i as int),
    {
        out.push(v[i].clone());
        proof {
            assert(out@ =~= v@.subrange(0, i + 1));
        }
    }
    proof {
        assert(out@ =~= v@);
    }
    out
}

impl Issue {
    /// Whether this is a vulnerability issue.
    pub fn is_vulnerability(&self) -> (r: bool)
        ensures
            r == (self.issue_type@ == "vulnerability"@),
    {
        str_eq(self.issue_type.as_str(), "vulnerability")
    }

    /// Whether this is a licensing issue.
    pub fn is_licensing(&self) -> (r: bool)
        ensures
            r == (self.issue_type@ == "licensing"@),
    {
        str_eq(self.issue_type.as_str(), "licensing")
    }

    /// Whether this is a quality issue.
    pub fn is_quality(&self) -> (r: bool)
        ensures
            r == (self.issue_type@ == "quality"@),
    {
        str_eq(self.issue_type.as_str(), "quality")
    }

    /// Number of projects where this issue is active.
    pub fn active_count(&self) -> (r: u32)
        ensures
            r == self.statuses.active,
    {
        self.statuses.active
    }

    /// Number of projects where this issue is ignored.
    pub fn ignored_count(&self) -> (r: u32)
        ensures
            r == self.statuses.ignored,
    {
        self.statuses.ignored
    }

    /// The source package locator.
    pub fn source_locator(&self) -> (r: &str)
        ensures
            r@ == self.source.id@,
    {
        self.source.id.as_str()
    }

    /// The package name from the source, if recorded.
    pub fn package_name(&self) -> (r: Option<&str>)
        ensures
            match self.source.name {
                Some(n) => r is Some && r->Some_0@ == n@,
                None => r is None,
            },
    {
        match &self.source.name {
            Some(n) => Some(n.as_str()),
            None => None,
        }
    }

    /// The package version from the source, if recorded.
    pub fn package_version(&self) -> (r: Option<&str>)
        ensures
            match self.source.version {
                Some(v) => r is Some && r->Some_0@ == v@,
                None => r is None,
            },
    {
        match &self.source.version {
            Some(v) => Some(v.as_str()),
            None => None,
        }
    }
}

/// Issue category for filtering.
#[derive(Clone, Copy, Debug, PartialEq, Eq, Structural)]
pub enum IssueCategory {
    /// Security vulnerabilities.
    Vulnerability,
    /// License compliance issues.
    Licensing,
    /// Code quality concerns.
    Quality,
}

/// The name of an issue category as the API spells it.
pub open spec fn spec_category_name(c: IssueCategory) -> Seq<char> {
    match c {
        IssueCategory::Vulnerability => "vulnerability"@,
        IssueCategory::Licensing => "licensing"@,
        IssueCategory::Quality => "quality"@,
    }
}

impl IssueCategory {
    /// The category's name as the API spells it.
    pub fn name(&self) -> (r: &'static str)
        ensures
            r@ == spec_category_name(*self),
    {
        match self {
            IssueCategory::Vulnerability => "vulnerability",
            IssueCategory::Licensing => "licensing",
            IssueCategory::Quality => "quality",
        }
    }
}

/// Query parameters for listing issues.
#[derive(Debug)]
pub struct IssueListQuery {
    /// Filter by issue category.
    pub category: Option<IssueCategory>,
    /// Filter by status (active, ignored, resolved).
    pub status: Option<String>,
    /// Scope type (project, revision, etc.).
    pub scope_type: Option<String>,
    /// Scope ID (project/revision locator).
    pub scope_id: Option<String>,
    /// Sort order (e.g., "severity_desc", "created_at_asc").
    pub sort: Option<String>,
}

impl Clone for IssueListQuery {
    fn clone(&self) -> (res: Self)
        ensures
            res == *self,
    {
        IssueListQuery {
            category: self.category,
            status: clone_opt_string(&self.status),
            scope_type: clone_opt_string(&self.scope_type),
            scope_id: clone_opt_string(&self.scope_id),
            sort: clone_opt_string(&self.sort),
        }
    }
}

impl Default for IssueListQuery {
    /// A query with no filters.
    fn default() -> (r: Self)
        ensures
            r.category is None,
            r.status is None,
            r.scope_type is None,
            r.scope_id is None,
            r.sort is None,
    {
        IssueListQuery { category: None, status: None, scope_type: None, scope_id: None, sort: None }
    }
}

/// Fetch all issues matching a query from a page source, walking every
/// page; [`crate::listing::walk_result`] ties the outcome to the pages
/// the source actually answered, and every request carries the given
/// query.
pub fn get_issues<S>(source: &mut S, query: IssueListQuery) -> (r: Result<
    Vec<Issue>,
    crate::error::FossaError,
>) where Issue: crate::listing::List<S, Query = IssueListQuery>
    ensures
        <Issue as crate::listing::List<S>>::calls(*final(source))
            <= <Issue as crate::listing::List<S>>::calls(*old(source))
            + crate::pagination::MAX_PAGES as nat,
        crate::listing::walk_result::<S, Issue>(*old(source), *final(source), r),
        crate::listing::walk_queries(
            crate::listing::walk_log::<S, Issue>(*old(source), *final(source)),
            query,
        ),
{
    crate::listing::list_all::<S, Issue>(source, &query)
}

/// Fetch a single page of issues from a page source: one request,
/// logged with exactly this page, count and query when it succeeds.
pub fn get_issues_page<S>(source: &mut S, query: IssueListQuery, page: u32, count: u32) -> (r:
    Result<crate::pagination::Page<Issue>, crate::error::FossaError>) where Issue: crate::listing::List<
    S,
    Query = IssueListQuery,
>
    ensures
        <Issue as crate::listing::List<S>>::calls(*final(source))
            == <Issue as crate::listing::List<S>>::calls(*old(source)) + 1,
        r matches Ok(p) ==> ({
            let prior = <Issue as crate::listing::List<S>>::fetched(*old(source));
            let log = <Issue as crate::listing::List<S>>::fetched(*final(source));
            &&& log.len() == prior.len() + 1
            &&& log.subrange(0, prior.len() as int) == prior
            &&& log.last().page == page
            &&& log.last().count == count
            &&& log.last().query == query
            &&& log.last().items == p.items@
            &&& log.last().has_more == p.has_more
        }),
        r is Err ==> <Issue as crate::listing::List<S>>::fetched(*final(source))
            == <Issue as crate::listing::List<S>>::fetched(*old(source)),
{
    let r = <Issue as crate::listing::List<S>>::list_page(source, &query, page, count);
    proof {
        if r is Ok {
            assert(<Issue as crate::listing::List<S>>::fetched(*source).subrange(
                0,
                <Issue as crate::listing::List<S>>::fetched(*old(source)).len() as int,
            ) =~= <Issue as crate::listing::List<S>>::fetched(*old(source)));
        }
    }
    r
}

/// Fetch all issues scoped to one project, optionally filtered by
/// category, walking every page; every request carries the project
/// scope and the chosen category, and nothing else.
pub fn get_project_issues<S>(
    source: &mut S,
    project_locator: &str,
    category: Option<IssueCategory>,
) -> (r: Result<Vec<Issue>, crate::error::FossaError>) where Issue: crate::listing::List<
    S,
    Query = IssueListQuery,
>
    ensures
        <Issue as crate::listing::List<S>>::calls(*final(source))
            <= <Issue as crate::listing::List<S>>::calls(*old(source))
            + crate::pagination::MAX_PAGES as nat,
        crate::listing::walk_result::<S, Issue>(*old(source), *final(source), r),
        forall|i: int|
            0 <= i < crate::listing::walk_log::<S, Issue>(*old(source), *final(source)).len()
                ==> ({
                let q = (#[trigger] crate::listing::walk_log::<S, Issue>(
                    *old(source),
                    *final(source),
                )[i]).query;
                &&& q.category == category
                &&& q.status is None
                &&& q.sort is None
                &&& q.scope_type matches Some(t) && t@ == "project"@
                &&& q.scope_id matches Some(d) && d@ == project_locator@
            }),
{
    let query = IssueListQuery {
        category,
        status: None,
        scope_type: Some("project".to_owned()),
        scope_id: Some(project_locator.to_owned()),
        sort: None,
    };
    crate::listing::list_all::<S, Issue>(source, &query)
}

} // verus!
