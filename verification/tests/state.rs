//! Tests of the mock state: keyed lookups, filters, and the update path.

use fossapi::Fixtures;
use fossapi::MockState;

fn sample_project(id: &str, title: &str) -> fossapi::Project {
    Fixtures::minimal_project(id, title)
}

#[test]
fn test_state_add_and_get_project() {
    let state = MockState::new().with_project(sample_project("custom+1/test", "Test Project"));

    let project = state.get_project("custom+1/test");
    assert!(project.is_some());
    assert_eq!(project.unwrap().title, "Test Project");
}

#[test]
fn test_state_list_projects_with_filter() {
    let state = MockState::new()
        .with_project(sample_project("custom+1/alpha", "Alpha Project"))
        .with_project(sample_project("custom+1/beta", "Beta Project"))
        .with_project(sample_project("custom+1/gamma", "Gamma Test"));

    let all = state.list_projects(None);
    assert_eq!(all.len(), 3);

    let filtered = state.list_projects(Some("project"));
    assert_eq!(filtered.len(), 2);

    let exact = state.list_projects(Some("gamma"));
    assert_eq!(exact.len(), 1);
}

#[test]
fn test_state_update_project() {
    let mut state =
        MockState::new().with_project(sample_project("custom+1/test", "Original Title"));

    let updated = state.update_project(
        "custom+1/test",
        Some("New Title".to_string()),
        Some("https://example.com".to_string()),
        Some(true),
    );

    assert!(updated.is_some());
    let project = updated.unwrap();
    assert_eq!(project.title, "New Title");
    assert_eq!(project.url.as_deref(), Some("https://example.com"));
    assert!(project.public);
}

#[test]
fn state_insert_replaces_same_key() {
    let state = MockState::new()
        .with_project(sample_project("custom+1/x", "First"))
        .with_project(sample_project("custom+1/x", "Second"));
    assert_eq!(state.projects.len(), 1);
    assert_eq!(state.get_project("custom+1/x").unwrap().title, "Second");
}

#[test]
fn state_issue_lookup_and_category_filter() {
    let state = MockState::new()
        .with_issue(Fixtures::vulnerability_issue(7, "CVE-2020-1", "high", "npm+a$1"))
        .with_issue(Fixtures::licensing_issue(8, "GPL-3.0", "npm+b$2"));

    assert!(state.get_issue(7).is_some());
    assert!(state.get_issue(9).is_none());

    // The category match is exact but case-insensitive.
    assert_eq!(state.list_issues(Some("VULNERABILITY")).len(), 1);
    assert_eq!(state.list_issues(Some("licensing")).len(), 1);
    assert_eq!(state.list_issues(Some("lic")).len(), 0);
    assert_eq!(state.list_issues(None).len(), 2);
}

#[test]
fn state_dependencies_exact_key() {
    let deps = vec![
        Fixtures::npm_dependency("lodash", "4.17.21", 1),
        Fixtures::npm_dependency("accepts", "1.3.8", 2),
    ];
    let state = MockState::new().with_dependencies("custom+1/app$main", deps);

    assert!(state.get_dependencies("custom+1/app$main").is_some());
    assert_eq!(state.get_dependencies("custom+1/app$main").unwrap().len(), 2);
    assert!(state.get_dependencies("custom+1/app$dev").is_none());
}

#[test]
fn update_absent_project_is_not_found() {
    let mut state = MockState::new();
    let updated = state.update_project("custom+1/missing", Some("T".to_string()), None, None);
    assert!(updated.is_none());
}
