//! Tests of the resource models' helper methods.

use fossapi::BaseConclusion;
use fossapi::ConcludedLicenses;
use fossapi::Dependency;
use fossapi::DependencyStatus;
use fossapi::Fixtures;
use fossapi::Issue;
use fossapi::IssueDepths;
use fossapi::IssueSource;
use fossapi::IssueStatuses;
use fossapi::LicenseInfo;
use fossapi::Revision;
use fossapi::RevisionStatus;

fn make_test_dependency() -> Dependency {
    let mut dep = Fixtures::minimal_dependency("npm+test$1.0.0", 1);
    dep.title = Some("test".to_string());
    dep
}

#[test]
fn test_dependency_is_resolved() {
    let mut dep = make_test_dependency();
    assert!(!dep.is_resolved()); // No status = not resolved

    dep.status = Some(DependencyStatus {
        resolved: true,
        ..Default::default()
    });
    assert!(dep.is_resolved());
}

#[test]
fn test_dependency_is_analyzing() {
    let mut dep = make_test_dependency();
    assert!(!dep.is_analyzing());

    dep.status = Some(DependencyStatus {
        analyzing: true,
        ..Default::default()
    });
    assert!(dep.is_analyzing());
}

#[test]
fn test_dependency_is_unsupported() {
    let mut dep = make_test_dependency();
    assert!(!dep.is_unsupported());

    dep.status = Some(DependencyStatus {
        unsupported: true,
        ..Default::default()
    });
    assert!(dep.is_unsupported());
}

#[test]
fn test_dependency_concluded_license_ids() {
    let mut dep = make_test_dependency();
    assert!(dep.concluded_license_ids().is_empty());

    dep.concluded_licenses = Some(ConcludedLicenses {
        base: Some(BaseConclusion {
            licenses: vec!["MIT".to_string(), "Apache-2.0".to_string()],
            ..Default::default()
        }),
        ..Default::default()
    });
    assert_eq!(dep.concluded_license_ids(), vec!["MIT", "Apache-2.0"]);
}

#[test]
fn test_dependency_status_error() {
    let mut dep = make_test_dependency();
    assert!(dep.status_error().is_none());

    dep.status = Some(DependencyStatus {
        error: Some("Resolution failed".to_string()),
        ..Default::default()
    });
    assert_eq!(dep.status_error(), Some("Resolution failed"));
}

fn make_test_issue(issue_type: &str) -> Issue {
    Issue {
        id: 1,
        created_at: None,
        issue_type: issue_type.to_string(),
        source: IssueSource {
            id: "npm+test$1.0.0".to_string(),
            name: Some("test".to_string()),
            url: None,
            version: Some("1.0.0".to_string()),
            package_manager: Some("npm".to_string()),
        },
        depths: IssueDepths::default(),
        statuses: IssueStatuses { active: 3, ignored: 1 },
        projects: vec![],
        vuln_id: None,
        title: None,
        cve: Some("CVE-2023-1234".to_string()),
        cvss_vector: None,
        severity: Some("high".to_string()),
        details: None,
        remediation: None,
        cwes: vec![],
        published: None,
        exploitability: None,
        license: None,
    }
}

#[test]
fn test_issue_is_vulnerability() {
    let issue = make_test_issue("vulnerability");
    assert!(issue.is_vulnerability());
    assert!(!issue.is_licensing());
    assert!(!issue.is_quality());
}

#[test]
fn test_issue_is_licensing() {
    let issue = make_test_issue("licensing");
    assert!(!issue.is_vulnerability());
    assert!(issue.is_licensing());
    assert!(!issue.is_quality());
}

#[test]
fn test_issue_is_quality() {
    let issue = make_test_issue("quality");
    assert!(!issue.is_vulnerability());
    assert!(!issue.is_licensing());
    assert!(issue.is_quality());
}

#[test]
fn test_issue_active_count() {
    let issue = make_test_issue("vulnerability");
    assert_eq!(issue.active_count(), 3);
}

#[test]
fn test_issue_ignored_count() {
    let issue = make_test_issue("vulnerability");
    assert_eq!(issue.ignored_count(), 1);
}

#[test]
fn test_issue_source_locator() {
    let issue = make_test_issue("vulnerability");
    assert_eq!(issue.source_locator(), "npm+test$1.0.0");
}

#[test]
fn test_issue_package_name() {
    let issue = make_test_issue("vulnerability");
    assert_eq!(issue.package_name(), Some("test"));
}

#[test]
fn test_issue_package_version() {
    let issue = make_test_issue("vulnerability");
    assert_eq!(issue.package_version(), Some("1.0.0"));
}

#[test]
fn test_issue_severity() {
    let issue = make_test_issue("vulnerability");
    assert_eq!(issue.severity.as_deref(), Some("high"));
}

#[test]
fn test_issue_cve() {
    let issue = make_test_issue("vulnerability");
    assert_eq!(issue.cve.as_deref(), Some("CVE-2023-1234"));
}

#[test]
fn dependency_locator_parts() {
    let dep = Fixtures::minimal_dependency("npm+lodash$4.17.21", 1);
    assert_eq!(dep.package_name(), Some("lodash"));
    assert_eq!(dep.version(), Some("4.17.21"));
    assert_eq!(dep.fetcher(), Some("npm"));
    assert!(dep.is_direct());
    assert!(!dep.is_transitive());

    let plain = Fixtures::minimal_dependency("no-markers", 2);
    assert_eq!(plain.package_name(), None);
    assert_eq!(plain.version(), None);
    assert_eq!(plain.fetcher(), Some("no-markers"));
    assert!(plain.is_transitive());
}

#[test]
fn revision_locator_parts() {
    let rev: Revision = Fixtures::minimal_revision("custom+58216/org/repo$main");
    assert_eq!(rev.project_locator(), Some("custom+58216/org/repo"));
    assert_eq!(rev.ref_from_locator(), Some("main"));
    assert_eq!(rev.fetcher(), Some("custom"));
    assert!(!rev.is_analyzed());

    let resolved = Fixtures::resolved_revision("custom+1/x$dev", "dev");
    assert!(matches!(resolved.status, Some(RevisionStatus::Passed)));
    assert!(resolved.is_analyzed());
}

#[test]
fn license_info_id_and_title() {
    let simple = LicenseInfo::Simple("MIT".to_string());
    assert_eq!(simple.id(), Some("MIT"));
    assert_eq!(simple.title(), Some("MIT"));

    let full = LicenseInfo::Full {
        id: Some("Apache-2.0".to_string()),
        title: Some("Apache License 2.0".to_string()),
        declared: true,
        discovered: false,
    };
    assert_eq!(full.id(), Some("Apache-2.0"));
    assert_eq!(full.title(), Some("Apache License 2.0"));

    let id_only = LicenseInfo::Full {
        id: Some("BSD-3-Clause".to_string()),
        title: None,
        declared: false,
        discovered: true,
    };
    assert_eq!(id_only.title(), Some("BSD-3-Clause"));

    let empty = LicenseInfo::Full { id: None, title: None, declared: false, discovered: false };
    assert_eq!(empty.id(), None);
    assert_eq!(empty.title(), None);
}

#[test]
fn project_helpers() {
    let project = Fixtures::analyzed_project("custom+1/app", "App", "main");
    assert_eq!(project.locator(), "custom+1/app");
    assert_eq!(project.fetcher(), Some("custom"));
    assert!(project.is_analyzed());
    assert_eq!(project.latest_revision_locator(), Some("custom+1/app$main"));

    let bare = Fixtures::minimal_project("plain", "Plain");
    assert_eq!(bare.fetcher(), Some("plain"));
    assert!(!bare.is_analyzed());
    assert_eq!(bare.latest_revision_locator(), None);
}
