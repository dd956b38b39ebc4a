//! The dependency resource: a package that a project revision depends
//! on, discovered during analysis.

use vstd::prelude::*;
use vstd::string::StrSliceExecFns;

use crate::project::clone_opt_string;
use crate::project::clone_vec_string;
use crate::strutil::first_index_of;
use crate::strutil::find_char;
use crate::strutil::lemma_first_index_of;

verus! {

/// License information for a dependency: either a bare identifier or a
/// full record with metadata.
#[derive(Debug)]
pub enum LicenseInfo {
    /// Simple string license (e.g., "MIT", "Apache-2.0").
    Simple(String),
    /// Full license object with metadata.
    Full {
        /// The SPDX license identifier.
        id: Option<String>,
        /// The license title.
        title: Option<String>,
        /// Whether this license was declared in the package metadata.
        declared: bool,
        /// Whether this license was discovered through file analysis.
        discovered: bool,
    },
}

impl Clone for LicenseInfo {
    fn clone(&self) -> (res: Self)
        ensures
            res == *self,
    {
        match self {
            LicenseInfo::Simple(s) => LicenseInfo::Simple(s.clone()),
            LicenseInfo::Full { id, title, declared, discovered } => LicenseInfo::Full {
                id: clone_opt_string(id),
                title: clone_opt_string(title),
                declared: *declared,
                discovered: *discovered,
            },
        }
    }
}

impl LicenseInfo {
    /// The license identifier: the string itself for a simple license,
    /// the id field (if any) for a full one.
    pub fn id(&self) -> (r: Option<&str>)
        ensures
            match self {
                LicenseInfo::Simple(s) => r is Some && r->Some_0@ == s@,
                LicenseInfo::Full { id, .. } => match id {
                    Some(v) => r is Some && r->Some_0@ == v@,
                    None => r is None,
                },
            },
    {
        match self {
            LicenseInfo::Simple(s) => Some(s.as_str()),
            LicenseInfo::Full { id, .. } => match id {
                Some(v) => Some(v.as_str()),
                None => None,
            },
        }
    }

    /// The license title; a full license without a title falls back to
    /// its id, and a simple license to its string.
    pub fn title(&self) -> (r: Option<&str>)
        ensures
            match self {
                LicenseInfo::Simple(s) => r is Some && r->Some_0@ == s@,
                LicenseInfo::Full { id, title, .. } => match (title, id) {
                    (Some(t), _) => r is Some && r->Some_0@ == t@,
                    (None, Some(v)) => r is Some && r->Some_0@ == v@,
                    (None, None) => r is None,
                },
            },
    {
        match self {
            LicenseInfo::Simple(s) => Some(s.as_str()),
            LicenseInfo::Full { id, title, .. } => match title {
                Some(t) => Some(t.as_str()),
                None => match id {
                    Some(v) => Some(v.as_str()),
                    None => None,
                },
            },
        }
    }
}

/// Type of dependency issue.
#[derive(Clone, Copy, Debug, PartialEq, Eq, Structural)]
pub enum IssueType {
    /// Security vulnerability.
    Vulnerability,
    /// License policy flag.
    PolicyFlag,
    /// License policy conflict.
    PolicyConflict,
    /// Unlicensed dependency.
    UnlicensedDependency,
    /// Outdated dependency.
    OutdatedDependency,
    /// Blacklisted dependency.
    BlacklistedDependency,
    /// Unknown issue type.
    Unknown,
}

/// Status of an issue attached to a dependency.
#[derive(Clone, Copy, Debug, PartialEq, Eq, Structural)]
pub enum IssueStatus {
    /// Issue is active.
    Active,
    /// Issue has been ignored.
    Ignored,
    /// Issue has been resolved.
    Resolved,
    /// Unknown status.
    Unknown,
}

impl Default for IssueStatus {
    /// An issue starts out active.
    fn default() -> (r: Self)
        ensures
            r == IssueStatus::Active,
    {
        IssueStatus::Active
    }
}

/// An issue associated with a dependency.
#[derive(Debug)]
pub struct DependencyIssue {
    /// Issue ID.
    pub id: u64,
    /// Issue type.
    pub issue_type: IssueType,
    /// Issue status.
    pub status: IssueStatus,
    /// Severity level (for vulnerabilities).
    pub severity: Option<String>,
    /// CVE identifier (for vulnerabilities).
    pub cve: Option<String>,
}

impl Clone for DependencyIssue {
    fn clone(&self) -> (res: Self)
        ensures
            res == *self,
    {
        DependencyIssue {
            id: self.id,
            issue_type: self.issue_type,
            status: self.status,
            severity: clone_opt_string(&self.severity),
            cve: clone_opt_string(&self.cve),
        }
    }
}

/// Dependency resolution status.
#[derive(Debug)]
pub struct DependencyStatus {
    /// Error message if resolution failed.
    pub error: Option<String>,
    /// Whether the dependency has been resolved.
    pub resolved: bool,
    /// Whether the dependency type is unsupported.
    pub unsupported: bool,
    /// Whether the dependency is currently being analyzed.
    pub analyzing: bool,
}

impl Clone for DependencyStatus {
    fn clone(&self) -> (res: Self)
        ensures
            res == *self,
    {
        DependencyStatus {
            error: clone_opt_string(&self.error),
            resolved: self.resolved,
            unsupported: self.unsupported,
            analyzing: self.analyzing,
        }
    }
}

impl Default for DependencyStatus {
    /// An unresolved status with no error.
    fn default() -> (r: Self)
        ensures
            r.error is None,
            !r.resolved,
            !r.unsupported,
            !r.analyzing,
    {
        DependencyStatus { error: None, resolved: false, unsupported: false, analyzing: false }
    }
}

/// Scoped license conclusion data.
#[derive(Debug)]
pub struct ScopedConclusion {
    /// The concluded license identifiers.
    pub licenses: Vec<String>,
    /// User who last edited this conclusion.
    pub last_edited_by: Option<String>,
    /// When this conclusion was last updated.
    pub updated_at: Option<String>,
}

/// The model of a [`ScopedConclusion`].
pub struct ScopedConclusionView {
    pub licenses: Seq<String>,
    pub last_edited_by: Option<String>,
    pub updated_at: Option<String>,
}

impl View for ScopedConclusion {
    type V = ScopedConclusionView;

    open spec fn view(&self) -> ScopedConclusionView {
        ScopedConclusionView {
            licenses: self.licenses@,
            last_edited_by: self.last_edited_by,
            updated_at: self.updated_at,
        }
    }
}

impl Clone for ScopedConclusion {
    fn clone(&self) -> (res: Self)
        ensures
            res@ == self@,
    {
        ScopedConclusion {
            licenses: clone_vec_string(&self.licenses),
            last_edited_by: clone_opt_string(&self.last_edited_by),
            updated_at: clone_opt_string(&self.updated_at),
        }
    }
}

impl Default for ScopedConclusion {
    /// No concluded licenses, never edited.
    fn default() -> (r: Self)
        ensures
            r@.licenses.len() == 0,
            r@.last_edited_by is None,
            r@.updated_at is None,
    {
        ScopedConclusion { licenses: Vec::new(), last_edited_by: None, updated_at: None }
    }
}

/// Base license conclusion data.
#[derive(Debug)]
pub struct BaseConclusion {
    /// The concluded license identifiers.
    pub licenses: Vec<String>,
    /// Justification for the license conclusion.
    pub justification: Option<String>,
}

/// The model of a [`BaseConclusion`].
pub struct BaseConclusionView {
    pub licenses: Seq<String>,
    pub justification: Option<String>,
}

impl View for BaseConclusion {
    type V = BaseConclusionView;

    open spec fn view(&self) -> BaseConclusionView {
        BaseConclusionView { licenses: self.licenses@, justification: self.justification }
    }
}

impl Clone for BaseConclusion {
    fn clone(&self) -> (res: Self)
        ensures
            res@ == self@,
    {
        BaseConclusion {
            licenses: clone_vec_string(&self.licenses),
            justification: clone_opt_string(&self.justification),
        }
    }
}

impl Default for BaseConclusion {
    /// No concluded licenses, no justification.
    fn default() -> (r: Self)
        ensures
            r@.licenses.len() == 0,
            r@.justification is None,
    {
        BaseConclusion { licenses: Vec::new(), justification: None }
    }
}

/// Concluded licenses for a dependency.
#[derive(Debug)]
pub struct ConcludedLicenses {
    /// Scoped license conclusions.
    pub scoped: Option<ScopedConclusion>,
    /// Base license conclusions.
    pub base: Option<BaseConclusion>,
}

/// The model of a [`ConcludedLicenses`].
pub struct ConcludedLicensesView {
    pub scoped: Option<ScopedConclusionView>,
    pub base: Option<BaseConclusionView>,
}

impl View for ConcludedLicenses {
    type V = ConcludedLicensesView;

    open spec fn view(&self) -> ConcludedLicensesView {
        ConcludedLicensesView {
            scoped: match self.scoped {
                Some(s) => Some(s@),
                None => None,
            },
            base: match self.base {
                Some(b) => Some(b@),
                None => None,
            },
        }
    }
}

impl Clone for ConcludedLicenses {
    fn clone(&self) -> (res: Self)
        ensures
            res@ == self@,
    {
        ConcludedLicenses {
            scoped: match &self.scoped {
                Some(s) => Some(s.clone()),
                None => None,
            },
            base: match &self.base {
                Some(b) => Some(b.clone()),
                None => None,
            },
        }
    }
}

impl Default for ConcludedLicenses {
    /// No conclusions at all.
    fn default() -> (r: Self)
        ensures
            r@.scoped is None,
            r@.base is None,
    {
        ConcludedLicenses { scoped: None, base: None }
    }
}

/// A root project that includes a dependency.
#[derive(Debug)]
pub struct DependencyRootProject {
    /// The project title.
    pub title: Option<String>,
    /// The revision locator.
    pub revision: Option<String>,
    /// The branch name.
    pub branch: Option<String>,
    /// License conclusions for this project context.
    pub conclusions: Option<ConcludedLicenses>,
}

/// The model of a [`DependencyRootProject`].
pub struct DependencyRootProjectView {
    pub title: Option<String>,
    pub revision: Option<String>,
    pub branch: Option<String>,
    pub conclusions: Option<ConcludedLicensesView>,
}

impl View for DependencyRootProject {
    type V = DependencyRootProjectView;

    open spec fn view(&self) -> DependencyRootProjectView {
        DependencyRootProjectView {
            title: self.title,
            revision: self.revision,
            branch: self.branch,
            conclusions: match self.conclusions {
                Some(c) => Some(c@),
                None => None,
            },
        }
    }
}

impl Clone for DependencyRootProject {
    fn clone(&self) -> (res: Self)
        ensures
            res@ == self@,
    {
        DependencyRootProject {
            title: clone_opt_string(&self.title),
            revision: clone_opt_string(&self.revision),
            branch: clone_opt_string(&self.branch),
            conclusions: match &self.conclusions {
                Some(c) => Some(c.clone()),
                None => None,
            },
        }
    }
}

impl Default for DependencyRootProject {
    /// An empty root-project record.
    fn default() -> (r: Self)
        ensures
            r@.title is None,
            r@.revision is None,
            r@.branch is None,
            r@.conclusions is None,
    {
        DependencyRootProject { title: None, revision: None, branch: None, conclusions: None }
    }
}

/// A dependency in a project revision.
#[derive(Debug)]
pub struct Dependency {
    /// The dependency locator (e.g., "npm+react$18.2.0").
    pub locator: String,
    /// The dependency title/name.
    pub title: Option<String>,
    /// Dependency depth (1 = direct, >1 = transitive).
    pub depth: u32,
    /// Whether this is a manually added dependency.
    pub is_manual: bool,
    /// Whether this dependency is ignored.
    pub is_ignored: bool,
    /// Whether this is an unknown dependency.
    pub is_unknown: bool,
    /// All licenses found for this dependency.
    pub licenses: Vec<LicenseInfo>,
    /// Declared licenses as simple strings.
    pub declared_licenses: Vec<String>,
    /// File paths where this dependency was found.
    pub origin_paths: Vec<String>,
    /// Package labels (e.g., "production", "development").
    pub package_labels: Vec<String>,
    /// Issues associated with this dependency.
    pub issues: Vec<DependencyIssue>,
    /// Dependency resolution status.
    pub status: Option<DependencyStatus>,
    /// Concluded licenses for this dependency.
    pub concluded_licenses: Option<ConcludedLicenses>,
    /// Root projects that include this dependency.
    pub root_projects: Vec<DependencyRootProject>,
    /// Container layer depth.
    pub layer_depth: Option<u32>,
    /// Common Platform Enumeration identifiers.
    pub cpes: Vec<String>,
    /// Paths where this dependency is vendored.
    pub vendored_paths: Vec<String>,
    /// Version as a separate field (redundant with the locator but
    /// reported by the API).
    pub version_field: Option<String>,
}

/// The model of a [`Dependency`]: the same fields, with vectors
/// abstracted to sequences and nested records to their models.
pub struct DependencyView {
    pub locator: String,
    pub title: Option<String>,
    pub depth: u32,
    pub is_manual: bool,
    pub is_ignored: bool,
    pub is_unknown: bool,
    pub licenses: Seq<LicenseInfo>,
    pub declared_licenses: Seq<String>,
    pub origin_paths: Seq<String>,
    pub package_labels: Seq<String>,
    pub issues: Seq<DependencyIssue>,
    pub status: Option<DependencyStatus>,
    pub concluded_licenses: Option<ConcludedLicensesView>,
    pub root_projects: Seq<DependencyRootProjectView>,
    pub layer_depth: Option<u32>,
    pub cpes: Seq<String>,
    pub vendored_paths: Seq<String>,
    pub version_field: Option<String>,
}

impl View for Dependency {
    type V = DependencyView;

    open spec fn view(&self) -> DependencyView {
        DependencyView {
            locator: self.locator,
            title: self.title,
            depth: self.depth,
            is_manual: self.is_manual,
            is_ignored: self.is_ignored,
            is_unknown: self.is_unknown,
            licenses: self.licenses@,
            declared_licenses: self.declared_licenses@,
            origin_paths: self.origin_paths@,
            package_labels: self.package_labels@,
            issues: self.issues@,
            status: self.status,
            concluded_licenses: match self.concluded_licenses {
                Some(c) => Some(c@),
                None => None,
            },
            root_projects: self.root_projects@.map_values(|p: DependencyRootProject| p@),
            layer_depth: self.layer_depth,
            cpes: self.cpes@,
            vendored_paths: self.vendored_paths@,
            version_field: self.version_field,
        }
    }
}

impl Clone for Dependency {
    fn clone(&self) -> (res: Self)
        ensures
            res@ == self@,
    {
        let res = Dependency {
            locator: self.locator.clone(),
            title: clone_opt_string(&self.title),
            depth: self.depth,
            is_manual: self.is_manual,
            is_ignored: self.is_ignored,
            is_unknown: self.is_unknown,
            licenses: clone_licenses(&self.licenses),
            declared_licenses: clone_vec_string(&self.declared_licenses),
            origin_paths: clone_vec_string(&self.origin_paths),
            package_labels: clone_vec_string(&self.package_labels),
            issues: clone_dependency_issues(&self.issues),
            status: match &self.status {
                Some(s) => Some(s.clone()),
                None => None,
            },
            concluded_licenses: match &self.concluded_licenses {
                Some(c) => Some(c.clone()),
                None => None,
            },
            root_projects: clone_root_projects(&self.root_projects),
            layer_depth: self.layer_depth,
            cpes: clone_vec_string(&self.cpes),
            vendored_paths: clone_vec_string(&self.vendored_paths),
            version_field: clone_opt_string(&self.version_field),
        };
        proof {
            assert(res@.root_projects =~= self@.root_projects);
        }
        res
    }
}

/// Clone a vector of license records, preserving its contents.
fn clone_licenses(v: &Vec<LicenseInfo>) -> (r: Vec<LicenseInfo>)
    ensures
        r@ == v@,
{
    let mut out: Vec<LicenseInfo> = Vec::new();
    let n = v.len();
    for i in 0..n
        invariant
            n == v@.len(),
            out@ =~= v@.subrange(0, i as int),
    {
        out.push(v[i].clone());
        proof {
            assert(out@ =~= v@.subrange(0, i + 1));
        }
    }
    proof {
        assert(out@ =~= v@);
    }
    out
}

/// Clone a vector of dependency issues, preserving its contents.
fn clone_dependency_issues(v: &Vec<DependencyIssue>) -> (r: Vec<DependencyIssue>)
    ensures
        r@ == v@,
{
    let mut out: Vec<DependencyIssue> = Vec::new();
    let n = v.len();
    for i in 0..n
        invariant
            n == v@.len(),
            out@ =~= v@.subrange(0, i as int),
    {
        out.push(v[i].clone());
        proof {
            assert(out@ =~= v@.subrange(0, i + 1));
        }
    }
    proof {
        assert(out@ =~= v@);
    }
    out
}

/// Clone a vector of root-project records, preserving each record up to
/// its model.
fn clone_root_projects(v: &Vec<DependencyRootProject>) -> (r: Vec<DependencyRootProject>)
    ensures
        r@.len() == v@.len(),
        forall|k: int| 0 <= k < v@.len() ==> (#[trigger] r@[k])@ == v@[k]@,
{
    let mut out: Vec<DependencyRootProject> = Vec::new();
    let n = v.len();
    for i in 0..n
        invariant
            n == v@.len(),
            out@.len() == i,
            forall|k: int| 0 <= k < i ==> (#[trigger] out@[k])@ == v@[k]@,
    {
        out.push(v[i].clone());
    }
    out
}

impl Dependency {
    /// Whether this is a direct dependency.
    pub fn is_direct(&self) -> (r: bool)
        ensures
            r == (self.depth <= 1),
    {
        self.depth <= 1
    }

    /// Whether this is a transitive dependency.
    pub fn is_transitive(&self) -> (r: bool)
        ensures
            r == (self.depth > 1),
    {
        self.depth > 1
    }

    /// Whether this dependency has any issues.
    pub fn has_issues(&self) -> (r: bool)
        ensures
            r == (self.issues@.len() > 0),
    {
        self.issues.len() > 0
    }

    /// The package name from the locator: the characters after the first
    /// `+`, cut before the first `$` that follows it; `None` when the
    /// locator holds no `+`.
    pub fn package_name(&self) -> (r: Option<&str>)
        ensures
            match first_index_of(self.locator@, '+') {
                Some(i) => {
                    let rest = self.locator@.skip(i + 1);
                    r is Some && match first_index_of(rest, '$') {
                        Some(j) => r->Some_0@ == rest.subrange(0, j),
                        None => r->Some_0@ == rest,
                    }
                },
                None => r is None,
            },
    {
        proof {
            lemma_first_index_of(self.locator@, '+');
        }
        let s = self.locator.as_str();
        match find_char(s, '+') {
            None => None,
            Some(i) => {
                let n = s.unicode_len();
                let rest = s.substring_char(i + 1, n);
                proof {
                    assert(rest@ =~= self.locator@.skip(i + 1));
                    lemma_first_index_of(rest@, '$');
                }
                match find_char(rest, '$') {
                    Some(j) => Some(rest.substring_char(0, j)),
                    None => Some(rest),
                }
            },
        }
    }

    /// The version from the locator: the characters between the first
    /// `$` and the next `$` or the end; `None` when there is no `$`.
    pub fn version(&self) -> (r: Option<&str>)
        ensures
            match first_index_of(self.locator@, '$') {
                Some(i) => {
                    let rest = self.locator@.skip(i + 1);
                    r is Some && match first_index_of(rest, '$') {
                        Some(j) => r->Some_0@ == rest.subrange(0, j),
                        None => r->Some_0@ == rest,
                    }
                },
                None => r is None,
            },
    {
        proof {
            lemma_first_index_of(self.locator@, '$');
        }
        let s = self.locator.as_str();
        match find_char(s, '$') {
            None => None,
            Some(i) => {
                let n = s.unicode_len();
                let rest = s.substring_char(i + 1, n);
                proof {
                    assert(rest@ =~= self.locator@.skip(i + 1));
                    lemma_first_index_of(rest@, '$');
                }
                match find_char(rest, '$') {
                    Some(j) => Some(rest.substring_char(0, j)),
                    None => Some(rest),
                }
            },
        }
    }

    /// The fetcher/package manager from the locator: the characters
    /// before the first `+`, or the whole locator if it has none.
    pub fn fetcher(&self) -> (r: Option<&str>)
        ensures
            r is Some,
            match first_index_of(self.locator@, '+') {
                Some(i) => r->Some_0@ == self.locator@.subrange(0, i),
                None => r->Some_0@ == self.locator@,
            },
    {
        proof {
            lemma_first_index_of(self.locator@, '+');
        }
        match find_char(self.locator.as_str(), '+') {
            Some(i) => Some(self.locator.as_str().substring_char(0, i)),
            None => Some(self.locator.as_str()),
        }
    }

    /// Whether this dependency has been resolved.
    pub fn is_resolved(&self) -> (r: bool)
        ensures
            r == match self.status {
                Some(s) => s.resolved,
                None => false,
            },
    {
        match &self.status {
            Some(s) => s.resolved,
            None => false,
        }
    }

    /// Whether this dependency is currently being analyzed.
    pub fn is_analyzing(&self) -> (r: bool)
        ensures
            r == match self.status {
                Some(s) => s.analyzing,
                None => false,
            },
    {
        match &self.status {
            Some(s) => s.analyzing,
            None => false,
        }
    }

    /// Whether this dependency type is unsupported.
    pub fn is_unsupported(&self) -> (r: bool)
        ensures
            r == match self.status {
                Some(s) => s.unsupported,
                None => false,
            },
    {
        match &self.status {
            Some(s) => s.unsupported,
            None => false,
        }
    }

    /// The status error message, if any.
    pub fn status_error(&self) -> (r: Option<&str>)
        ensures
            match self.status {
                Some(s) => match s.error {
                    Some(e) => r is Some && r->Some_0@ == e@,
                    None => r is None,
                },
                None => r is None,
            },
    {
        match &self.status {
            Some(s) => match &s.error {
                Some(e) => Some(e.as_str()),
                None => None,
            },
            None => None,
        }
    }

    /// The concluded license identifiers (from base conclusions); an
    /// empty vector when no base conclusion is recorded.
    pub fn concluded_license_ids(&self) -> (r: Vec<&str>)
        ensures
            match self.concluded_licenses {
                Some(c) => match c.base {
                    Some(b) => r@.len() == b.licenses@.len() && forall|i: int|
                        0 <= i < r@.len() ==> (#[trigger] r@[i])@ == b.licenses@[i]@,
                    None => r@.len() == 0,
                },
                None => r@.len() == 0,
            },
    {
        match &self.concluded_licenses {
            Some(c) => match &c.base {
                Some(b) => {
                    let mut out: Vec<&str> = Vec::new();
                    let n = b.licenses.len();
                    for i in 0..n
                        invariant
                            n == b.licenses@.len(),
                            out@.len() == i,
                            forall|k: int|
                                0 <= k < i ==> (#[trigger] out@[k])@ == b.licenses@[k]@,
                    {
                        out.push(b.licenses[i].as_str());
                    }
                    out
                },
                None => Vec::new(),
            },
            None => Vec::new(),
        }
    }
}

/// Query parameters for listing dependencies.
#[derive(Debug)]
pub struct DependencyListQuery {
    /// Filter by title.
    pub title: Option<String>,
    /// Include ignored dependencies.
    pub show_ignored: Option<bool>,
    /// Filter to direct dependencies only.
    pub direct_only: Option<bool>,
    /// Filter by package manager/fetcher.
    pub fetcher: Option<String>,
}

impl Clone for DependencyListQuery {
    fn clone(&self) -> (res: Self)
        ensures
            res == *self,
    {
        DependencyListQuery {
            title: clone_opt_string(&self.title),
            show_ignored: self.show_ignored,
            direct_only: self.direct_only,
            fetcher: clone_opt_string(&self.fetcher),
        }
    }
}

impl Default for DependencyListQuery {
    /// A query with no filters.
    fn default() -> (r: Self)
        ensures
            r.title is None,
            r.show_ignored is None,
            r.direct_only is None,
            r.fetcher is None,
    {
        DependencyListQuery { title: None, show_ignored: None, direct_only: None, fetcher: None }
    }
}

/// Query type for dependency listing: the revision locator together with
/// the filters.
pub type DependencyQuery = (String, DependencyListQuery);

/// Fetch all dependencies of a revision from a page source, walking
/// every page; [`crate::listing::walk_result`] ties the outcome to the
/// pages the source actually answered, and every request carries the
/// given revision locator and filters.
pub fn get_dependencies<S>(
    source: &mut S,
    revision_locator: &str,
    query: DependencyListQuery,
) -> (r: Result<Vec<Dependency>, crate::error::FossaError>) where Dependency: crate::listing::List<
    S,
    Query = (String, DependencyListQuery),
>
    ensures
        <Dependency as crate::listing::List<S>>::calls(*final(source))
            <= <Dependency as crate::listing::List<S>>::calls(*old(source))
            + crate::pagination::MAX_PAGES as nat,
        crate::listing::walk_result::<S, Dependency>(*old(source), *final(source), r),
        forall|i: int|
            0 <= i < crate::listing::walk_log::<S, Dependency>(*old(source), *final(source)).len()
                ==> (#[trigger] crate::listing::walk_log::<S, Dependency>(
                *old(source),
                *final(source),
            )[i]).query.0@ == revision_locator@ && crate::listing::walk_log::<S, Dependency>(
                *old(source),
                *final(source),
            )[i].query.1 == query,
{
    let q = (revision_locator.to_owned(), query);
    crate::listing::list_all::<S, Dependency>(source, &q)
}

/// Fetch a single page of a revision's dependencies from a page source:
/// one request, logged with exactly this page, count, locator and
/// filters when it succeeds.
pub fn get_dependencies_page<S>(
    source: &mut S,
    revision_locator: &str,
    query: DependencyListQuery,
    page: u32,
    count: u32,
) -> (r: Result<crate::pagination::Page<Dependency>, crate::error::FossaError>) where Dependency: crate::listing::List<
    S,
    Query = (String, DependencyListQuery),
>
    ensures
        <Dependency as crate::listing::List<S>>::calls(*final(source))
            == <Dependency as crate::listing::List<S>>::calls(*old(source)) + 1,
        r matches Ok(p) ==> ({
            let prior = <Dependency as crate::listing::List<S>>::fetched(*old(source));
            let log = <Dependency as crate::listing::List<S>>::fetched(*final(source));
            &&& log.len() == prior.len() + 1
            &&& log.subrange(0, prior.len() as int) == prior
            &&& log.last().page == page
            &&& log.last().count == count
            &&& log.last().query.0@ == revision_locator@
            &&& log.last().query.1 == query
            &&& log.last().items == p.items@
            &&& log.last().has_more == p.has_more
        }),
        r is Err ==> <Dependency as crate::listing::List<S>>::fetched(*final(source))
            == <Dependency as crate::listing::List<S>>::fetched(*old(source)),
{
    let q = (revision_locator.to_owned(), query);
    let r = <Dependency as crate::listing::List<S>>::list_page(source, &q, page, count);
    proof {
        if r is Ok {
            assert(<Dependency as crate::listing::List<S>>::fetched(*source).subrange(
                0,
                <Dependency as crate::listing::List<S>>::fetched(*old(source)).len() as int,
            ) =~= <Dependency as crate::listing::List<S>>::fetched(*old(source)));
        }
    }
    r
}

} // verus!
