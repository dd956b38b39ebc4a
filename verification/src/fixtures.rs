//! Fixture factories: predefined, interlinked mock resources used to
//! seed the test double for repeatable runs.

use vstd::prelude::*;
use vstd::string::StringExecFns;

use crate::dependency::Dependency;
use crate::issue::Issue;
use crate::issue::IssueDepths;
use crate::issue::IssueSource;
use crate::issue::IssueStatuses;
use crate::project::LatestRevision;
use crate::project::Project;
use crate::project::ProjectIssues;
use crate::revision::Revision;
use crate::revision::RevisionStatus;

verus! {

/// Collection of fixture factories for test data.
pub struct Fixtures;

impl Fixtures {
    /// A minimal project: the given locator and title, everything else
    /// absent, private, with no labels or teams.
    pub fn minimal_project(locator: &str, title: &str) -> (r: Project)
        ensures
            r.id@ == locator@,
            r.title@ == title@,
            r.branch is None,
            r.version is None,
            r.project_type is None,
            r.url is None,
            !r.public,
            r.scanned is None,
            r.last_analyzed is None,
            r.issues is None,
            r.labels@.len() == 0,
            r.teams@.len() == 0,
            r.latest_revision is None,
            r.latest_build_status is None,
    {
        Project {
            id: locator.to_owned(),
            title: title.to_owned(),
            branch: None,
            version: None,
            project_type: None,
            url: None,
            public: false,
            scanned: None,
            last_analyzed: None,
            issues: None,
            labels: Vec::new(),
            teams: Vec::new(),
            latest_revision: None,
            latest_build_status: None,
        }
    }

    /// A project with issue counts: the total is the sum of the three
    /// categories.
    pub fn project_with_issues(
        locator: &str,
        title: &str,
        vuln: u32,
        licensing: u32,
        quality: u32,
    ) -> (r: Project)
        requires
            vuln + licensing + quality <= u32::MAX,
        ensures
            r.id@ == locator@,
            r.title@ == title@,
            r.issues matches Some(i) && i.total == vuln + licensing + quality && i.security == vuln
                && i.licensing == licensing && i.quality == quality,
    {
        let mut project = Self::minimal_project(locator, title);
        project.issues = Some(
            ProjectIssues {
                total: vuln + licensing + quality,
                licensing,
                security: vuln,
                quality,
            },
        );
        project
    }

    /// An analyzed project: a default branch and a latest revision keyed
    /// `<locator>$<branch>`, with a successful build status.
    pub fn analyzed_project(locator: &str, title: &str, branch: &str) -> (r: Project)
        ensures
            r.id@ == locator@,
            r.title@ == title@,
            r.branch matches Some(b) && b@ == branch@,
            r.latest_revision matches Some(lr) && lr.locator@ == locator@ + "$"@ + branch@
                && lr.message is Some,
            r.latest_build_status is Some,
    {
        let mut project = Self::minimal_project(locator, title);
        project.branch = Some(branch.to_owned());
        let rev_locator = locator.to_owned().concat("$").concat(branch);
        project.latest_revision = Some(
            LatestRevision {
                locator: rev_locator,
                message: Some("Latest analysis".to_owned()),
            },
        );
        project.latest_build_status = Some("SUCCEEDED".to_owned());
        project
    }

    /// A minimal revision: only the locator, not yet analyzed.
    pub fn minimal_revision(locator: &str) -> (r: Revision)
        ensures
            r.locator@ == locator@,
            r.ref_name is None,
            r.message is None,
            r.created_at is None,
            r.updated_at is None,
            r.status is None,
            r.issues is None,
            r.stats is None,
            !r.is_default,
            r.policy_id is None,
    {
        Revision {
            locator: locator.to_owned(),
            ref_name: None,
            message: None,
            created_at: None,
            updated_at: None,
            status: None,
            issues: None,
            stats: None,
            is_default: false,
            policy_id: None,
        }
    }

    /// A revision whose analysis has passed, carrying its ref name.
    pub fn resolved_revision(locator: &str, ref_name: &str) -> (r: Revision)
        ensures
            r.locator@ == locator@,
            r.ref_name matches Some(b) && b@ == ref_name@,
            r.status == Some(RevisionStatus::Passed),
    {
        let mut rev = Self::minimal_revision(locator);
        rev.ref_name = Some(ref_name.to_owned());
        rev.status = Some(RevisionStatus::Passed);
        rev
    }

    /// A minimal dependency: only the locator and its depth.
    pub fn minimal_dependency(locator: &str, depth: u32) -> (r: Dependency)
        ensures
            r.locator@ == locator@,
            r.depth == depth,
            r.title is None,
            !r.is_manual,
            !r.is_ignored,
            !r.is_unknown,
            r.licenses@.len() == 0,
            r.declared_licenses@.len() == 0,
            r.issues@.len() == 0,
            r.status is None,
            r.concluded_licenses is None,
            r.version_field is None,
    {
        Dependency {
            locator: locator.to_owned(),
            title: None,
            depth,
            is_manual: false,
            is_ignored: false,
            is_unknown: false,
            licenses: Vec::new(),
            declared_licenses: Vec::new(),
            origin_paths: Vec::new(),
            package_labels: Vec::new(),
            issues: Vec::new(),
            status: None,
            concluded_licenses: None,
            root_projects: Vec::new(),
            layer_depth: None,
            cpes: Vec::new(),
            vendored_paths: Vec::new(),
            version_field: None,
        }
    }

    /// An npm dependency keyed `npm+<name>$<version>`, with its title
    /// and version fields set.
    pub fn npm_dependency(name: &str, version: &str, depth: u32) -> (r: Dependency)
        ensures
            r.locator@ == "npm+"@ + name@ + "$"@ + version@,
            r.title matches Some(t) && t@ == name@,
            r.version_field matches Some(v) && v@ == version@,
            r.depth == depth,
    {
        let locator = "npm+".to_owned().concat(name).concat("$").concat(version);
        let mut dep = Self::minimal_dependency(locator.as_str(), depth);
        dep.title = Some(name.to_owned());
        dep.version_field = Some(version.to_owned());
        dep
    }

    /// A vulnerability issue for one package, active in one project.
    pub fn vulnerability_issue(id: u64, cve: &str, severity: &str, package_locator: &str) -> (r:
        Issue)
        ensures
            r.id == id,
            r.issue_type@ == "vulnerability"@,
            r.source.id@ == package_locator@,
            r.cve matches Some(c) && c@ == cve@,
            r.severity matches Some(s) && s@ == severity@,
            r.statuses.active == 1,
            r.statuses.ignored == 0,
            r.depths.direct == 1,
            r.depths.deep == 0,
            r.license is None,
    {
        Issue {
            id,
            created_at: None,
            issue_type: "vulnerability".to_owned(),
            source: IssueSource {
                id: package_locator.to_owned(),
                name: None,
                url: None,
                version: None,
                package_manager: None,
            },
            depths: IssueDepths { direct: 1, deep: 0 },
            statuses: IssueStatuses { active: 1, ignored: 0 },
            projects: Vec::new(),
            vuln_id: Some(cve.to_owned().concat("_").concat(package_locator)),
            title: Some(cve.to_owned().concat(" Vulnerability")),
            cve: Some(cve.to_owned()),
            cvss_vector: None,
            severity: Some(severity.to_owned()),
            details: Some("Vulnerability ".to_owned().concat(cve).concat(" in package")),
            remediation: None,
            cwes: Vec::new(),
            published: None,
            exploitability: None,
            license: None,
        }
    }

    /// A licensing issue for one package, active in one transitive
    /// dependency.
    pub fn licensing_issue(id: u64, license: &str, package_locator: &str) -> (r: Issue)
        ensures
            r.id == id,
            r.issue_type@ == "licensing"@,
            r.source.id@ == package_locator@,
            r.license matches Some(l) && l@ == license@,
            r.cve is None,
            r.severity is None,
            r.statuses.active == 1,
            r.statuses.ignored == 0,
            r.depths.direct == 0,
            r.depths.deep == 1,
    {
        Issue {
            id,
            created_at: None,
            issue_type: "licensing".to_owned(),
            source: IssueSource {
                id: package_locator.to_owned(),
                name: None,
                url: None,
                version: None,
                package_manager: None,
            },
            depths: IssueDepths { direct: 0, deep: 1 },
            statuses: IssueStatuses { active: 1, ignored: 0 },
            projects: Vec::new(),
            vuln_id: None,
            title: None,
            cve: None,
            cvss_vector: None,
            severity: None,
            details: None,
            remediation: None,
            cwes: Vec::new(),
            published: None,
            exploitability: None,
            license: Some(license.to_owned()),
        }
    }

    /// The default fixture scenario.
    pub fn default_scenario() -> (r: DefaultScenario)
        ensures
            r.projects@.len() == 1,
            r.revisions@.len() == 1,
            r.dependencies@.len() == 1,
            r.issues@.len() == 2,
            r.projects@[0].id@ == "custom+1/test-project"@,
            r.projects@[0].title@ == "Test Project"@,
            r.projects@[0].branch matches Some(b) && b@ == "main"@,
            r.projects@[0].latest_revision matches Some(lr) && lr.locator@
                == "custom+1/test-project"@ + "$"@ + "main"@,
            r.revisions@[0].locator@ == "custom+1/test-project"@ + "$"@ + "main"@,
            r.revisions@[0].ref_name matches Some(b) && b@ == "main"@,
            r.revisions@[0].status == Some(RevisionStatus::Passed),
            r.dependencies@[0].0@ == "custom+1/test-project"@ + "$"@ + "main"@,
            r.dependencies@[0].1@.len() == 3,
            r.dependencies@[0].1@[0].locator@ == "npm+"@ + "lodash"@ + "$"@ + "4.17.21"@,
            r.dependencies@[0].1@[0].title matches Some(t) && t@ == "lodash"@,
            r.dependencies@[0].1@[0].depth == 1,
            r.dependencies@[0].1@[1].locator@ == "npm+"@ + "express"@ + "$"@ + "4.18.0"@,
            r.dependencies@[0].1@[1].title matches Some(t) && t@ == "express"@,
            r.dependencies@[0].1@[1].depth == 1,
            r.dependencies@[0].1@[2].locator@ == "npm+"@ + "accepts"@ + "$"@ + "1.3.8"@,
            r.dependencies@[0].1@[2].title matches Some(t) && t@ == "accepts"@,
            r.dependencies@[0].1@[2].depth == 2,
            r.issues@[0].id == 1,
            r.issues@[0].issue_type@ == "vulnerability"@,
            r.issues@[0].cve matches Some(c) && c@ == "CVE-2024-0001"@,
            r.issues@[0].severity matches Some(v) && v@ == "high"@,
            r.issues@[0].source.id@ == "npm+lodash$4.17.21"@,
            r.issues@[1].id == 2,
            r.issues@[1].issue_type@ == "licensing"@,
            r.issues@[1].license matches Some(l) && l@ == "GPL-3.0"@,
            r.issues@[1].source.id@ == "npm+gpl-package$1.0.0"@,
    {
        DefaultScenario::build()
    }
}

/// A complete test scenario with related entities: one analyzed project
/// with one revision, that revision's dependencies, and two issues.
pub struct DefaultScenario {
    /// The scenario's projects.
    pub projects: Vec<Project>,
    /// The scenario's revisions.
    pub revisions: Vec<Revision>,
    /// Dependency lists, keyed by revision locator.
    pub dependencies: Vec<(String, Vec<Dependency>)>,
    /// The scenario's issues.
    pub issues: Vec<Issue>,
}

impl DefaultScenario {
    /// Build the default scenario.
    fn build() -> (r: Self)
        ensures
            r.projects@.len() == 1,
            r.revisions@.len() == 1,
            r.dependencies@.len() == 1,
            r.issues@.len() == 2,
            r.projects@[0].id@ == "custom+1/test-project"@,
            r.projects@[0].title@ == "Test Project"@,
            r.projects@[0].branch matches Some(b) && b@ == "main"@,
            r.projects@[0].latest_revision matches Some(lr) && lr.locator@
                == "custom+1/test-project"@ + "$"@ + "main"@,
            r.revisions@[0].locator@ == "custom+1/test-project"@ + "$"@ + "main"@,
            r.revisions@[0].ref_name matches Some(b) && b@ == "main"@,
            r.revisions@[0].status == Some(RevisionStatus::Passed),
            r.dependencies@[0].0@ == "custom+1/test-project"@ + "$"@ + "main"@,
            r.dependencies@[0].1@.len() == 3,
            r.dependencies@[0].1@[0].locator@ == "npm+"@ + "lodash"@ + "$"@ + "4.17.21"@,
            r.dependencies@[0].1@[0].title matches Some(t) && t@ == "lodash"@,
            r.dependencies@[0].1@[0].depth == 1,
            r.dependencies@[0].1@[1].locator@ == "npm+"@ + "express"@ + "$"@ + "4.18.0"@,
            r.dependencies@[0].1@[1].title matches Some(t) && t@ == "express"@,
            r.dependencies@[0].1@[1].depth == 1,
            r.dependencies@[0].1@[2].locator@ == "npm+"@ + "accepts"@ + "$"@ + "1.3.8"@,
            r.dependencies@[0].1@[2].title matches Some(t) && t@ == "accepts"@,
            r.dependencies@[0].1@[2].depth == 2,
            r.issues@[0].id == 1,
            r.issues@[0].issue_type@ == "vulnerability"@,
            r.issues@[0].cve matches Some(c) && c@ == "CVE-2024-0001"@,
            r.issues@[0].severity matches Some(v) && v@ == "high"@,
            r.issues@[0].source.id@ == "npm+lodash$4.17.21"@,
            r.issues@[1].id == 2,
            r.issues@[1].issue_type@ == "licensing"@,
            r.issues@[1].license matches Some(l) && l@ == "GPL-3.0"@,
            r.issues@[1].source.id@ == "npm+gpl-package$1.0.0"@,
    {
        let project_locator = "custom+1/test-project";
        let revision_locator = project_locator.to_owned().concat("$").concat("main");

        let mut projects: Vec<Project> = Vec::new();
        projects.push(Fixtures::analyzed_project(project_locator, "Test Project", "main"));

        let mut revisions: Vec<Revision> = Vec::new();
        revisions.push(Fixtures::resolved_revision(revision_locator.as_str(), "main"));

        let mut deps: Vec<Dependency> = Vec::new();
        deps.push(Fixtures::npm_dependency("lodash", "4.17.21", 1));
        deps.push(Fixtures::npm_dependency("express", "4.18.0", 1));
        deps.push(Fixtures::npm_dependency("accepts", "1.3.8", 2));
        let mut dependencies: Vec<(String, Vec<Dependency>)> = Vec::new();
        dependencies.push((revision_locator, deps));

        let mut issues: Vec<Issue> = Vec::new();
        issues.push(Fixtures::vulnerability_issue(1, "CVE-2024-0001", "high", "npm+lodash$4.17.21"));
        issues.push(Fixtures::licensing_issue(2, "GPL-3.0", "npm+gpl-package$1.0.0"));

        DefaultScenario { projects, revisions, dependencies, issues }
    }
}

} // verus!
