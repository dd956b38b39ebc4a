//! Tests of the fixture factories.

use fossapi::Fixtures;

#[test]
fn test_minimal_project() {
    let project = Fixtures::minimal_project("custom+1/test", "Test");
    assert_eq!(project.id, "custom+1/test");
    assert_eq!(project.title, "Test");
    assert!(!project.public);
}

#[test]
fn test_project_with_issues() {
    let project = Fixtures::project_with_issues("custom+1/test", "Test", 5, 3, 2);
    let issues = project.issues.unwrap();
    assert_eq!(issues.total, 10);
    assert_eq!(issues.security, 5);
    assert_eq!(issues.licensing, 3);
    assert_eq!(issues.quality, 2);
}

#[test]
fn test_vulnerability_issue() {
    let issue =
        Fixtures::vulnerability_issue(42, "CVE-2024-1234", "critical", "npm+lodash$4.17.0");
    assert_eq!(issue.id, 42);
    assert_eq!(issue.issue_type, "vulnerability");
    assert_eq!(issue.cve.as_deref(), Some("CVE-2024-1234"));
    assert_eq!(issue.severity.as_deref(), Some("critical"));
}

#[test]
fn test_default_scenario() {
    let scenario = Fixtures::default_scenario();
    assert!(!scenario.projects.is_empty());
    assert!(!scenario.revisions.is_empty());
    assert!(!scenario.dependencies.is_empty());
    assert!(!scenario.issues.is_empty());
}

#[test]
fn analyzed_project_latest_revision_key() {
    let project = Fixtures::analyzed_project("custom+1/app", "App", "main");
    assert_eq!(project.branch.as_deref(), Some("main"));
    let latest = project.latest_revision.unwrap();
    assert_eq!(latest.locator, "custom+1/app$main");
    assert_eq!(project.latest_build_status.as_deref(), Some("SUCCEEDED"));
}

#[test]
fn npm_dependency_locator_shape() {
    let dep = Fixtures::npm_dependency("express", "4.18.0", 1);
    assert_eq!(dep.locator, "npm+express$4.18.0");
    assert_eq!(dep.title.as_deref(), Some("express"));
    assert_eq!(dep.version_field.as_deref(), Some("4.18.0"));
}
