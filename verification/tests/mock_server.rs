//! End-to-end tests of the mock API server logic: the endpoint handlers
//! and the in-process page source, across all three pagination dialects.

use fossapi::handlers;
use fossapi::handlers::GetIssueQuery;
use fossapi::handlers::ListDependenciesQuery;
use fossapi::handlers::ListIssuesQuery;
use fossapi::handlers::ListProjectsQuery;
use fossapi::handlers::UpdateProjectParams;
use fossapi::Dependency;
use fossapi::DependencyListQuery;
use fossapi::Fixtures;
use fossapi::Get;
use fossapi::Issue;
use fossapi::IssueCategory;
use fossapi::IssueListQuery;
use fossapi::List;
use fossapi::MockApi;
use fossapi::MockState;
use fossapi::Project;
use fossapi::ProjectListQuery;
use fossapi::ProjectUpdateParams;
use fossapi::Revision;
use fossapi::RevisionListQuery;
use fossapi::Update;

fn three_projects() -> MockState {
    MockState::new()
        .with_project(Fixtures::minimal_project("custom+1/alpha", "Alpha"))
        .with_project(Fixtures::minimal_project("custom+1/beta", "Beta"))
        .with_project(Fixtures::minimal_project("custom+1/gamma", "Gamma"))
}

#[test]
fn project_listing_pages_with_total() {
    // Three projects, no filter: count=2 page=1 gives two items and more;
    // page=2 gives the last item and no more.
    let mut api = MockApi::new(three_projects());
    let query = ProjectListQuery::default();

    let first = Project::list_page(&mut api, &query, 1, 2).unwrap();
    assert_eq!(first.items.len(), 2);
    assert_eq!(first.total, Some(3));
    assert!(first.has_more);

    let second = Project::list_page(&mut api, &query, 2, 2).unwrap();
    assert_eq!(second.items.len(), 1);
    assert!(!second.has_more);
}

#[test]
fn project_listing_out_of_range_page_is_empty() {
    let mut api = MockApi::new(three_projects());
    let query = ProjectListQuery::default();
    let far = Project::list_page(&mut api, &query, 5, 2).unwrap();
    assert_eq!(far.items.len(), 0);
    assert_eq!(far.total, Some(3));
    assert!(!far.has_more);
}

#[test]
fn get_absent_project_is_not_found() {
    // An absent key is a structured not-found outcome, never an empty
    // success.
    let state = three_projects();
    let result = handlers::get_project_response(&state, &"custom+1/missing".to_string());
    let err = result.err().expect("an absent locator must not succeed");
    assert_eq!(err.error, "Project not found");
    assert_eq!(err.message, "No project found with locator: custom+1/missing");
}

#[test]
fn update_title_leaves_other_fields_alone() {
    // A partial update with only the title set leaves url and public
    // visibility at their prior values.
    let mut state = MockState::new().with_project({
        let mut p = Fixtures::minimal_project("custom+1/app", "Old Title");
        p.url = Some("https://old.example".to_string());
        p.public = true;
        p
    });

    let updated = handlers::update_project_response(
        &mut state,
        &"custom+1/app".to_string(),
        UpdateProjectParams {
            title: Some("New Title".to_string()),
            description: None,
            url: None,
            public: None,
        },
    )
    .unwrap();

    assert_eq!(updated.title, "New Title");
    assert_eq!(updated.url.as_deref(), Some("https://old.example"));
    assert!(updated.public);
}

#[test]
fn percent_encoded_locator_resolves_to_decoded_key() {
    // custom%2Borg%2Frepo%24main must resolve to custom+org/repo$main.
    let state = MockState::new()
        .with_project(Fixtures::minimal_project("custom+org/repo$main", "Encoded"));
    let found =
        handlers::get_project_response(&state, &"custom%2Borg%2Frepo%24main".to_string()).unwrap();
    assert_eq!(found.id, "custom+org/repo$main");
    assert_eq!(found.title, "Encoded");
}

#[test]
fn revision_prefix_match_requires_separator() {
    // custom+1/foo must not match a revision keyed custom+1/foobar$main.
    let state = MockState::new()
        .with_revision(Fixtures::minimal_revision("custom+1/foobar$main"))
        .with_revision(Fixtures::minimal_revision("custom+1/foo$main"));

    let foo = state.list_revisions_for_project("custom+1/foo");
    assert_eq!(foo.len(), 1);
    assert_eq!(foo[0].locator, "custom+1/foo$main");

    let foobar = state.list_revisions_for_project("custom+1/foobar");
    assert_eq!(foobar.len(), 1);
    assert_eq!(foobar[0].locator, "custom+1/foobar$main");
}

#[test]
fn grouped_revisions_by_branch() {
    let state = MockState::new()
        .with_revision(Fixtures::minimal_revision("custom+1/app$main"))
        .with_revision(Fixtures::minimal_revision("custom+1/app$dev"))
        .with_revision(Fixtures::minimal_revision("custom+1/app$main2"))
        .with_revision(Fixtures::minimal_revision("custom+1/other$main"));

    let groups = fossapi::grouping::list_revisions_response(&state, &"custom+1/app".to_string());
    assert_eq!(groups.len(), 3);
    assert_eq!(groups[0].branch, "main");
    assert_eq!(groups[0].revisions.len(), 1);
    assert_eq!(groups[1].branch, "dev");
    assert_eq!(groups[2].branch, "main2");
}

fn revision_with_time(locator: &str, t: Option<i64>) -> Revision {
    let mut r = Fixtures::minimal_revision(locator);
    r.created_at = t;
    r
}

#[test]
fn flattened_revisions_sort_newest_first_and_are_stable() {
    // Two revisions with identical creation timestamps keep their
    // original relative order after the sort-then-slice step.
    let state = MockState::new()
        .with_revision(revision_with_time("custom+1/app$old", Some(50)))
        .with_revision(revision_with_time("custom+1/app$first", Some(100)))
        .with_revision(revision_with_time("custom+1/app$second", Some(100)))
        .with_revision(revision_with_time("custom+1/app$undated", None));

    let mut api = MockApi::new(state);
    let q = ("custom+1/app".to_string(), RevisionListQuery::default());
    let page = Revision::list_page(&mut api, &q, 1, 10).unwrap();

    assert_eq!(page.items.len(), 4);
    assert_eq!(page.items[0].locator, "custom+1/app$first");
    assert_eq!(page.items[1].locator, "custom+1/app$second");
    assert_eq!(page.items[2].locator, "custom+1/app$old");
    assert_eq!(page.items[3].locator, "custom+1/app$undated");
    assert_eq!(page.total, Some(4));
}

#[test]
fn revision_listing_filters_by_branch() {
    let state = MockState::new()
        .with_revision(revision_with_time("custom+1/app$main", Some(3)))
        .with_revision(revision_with_time("custom+1/app$dev", Some(2)))
        .with_revision(revision_with_time("custom+1/app$main2", Some(1)));

    let mut api = MockApi::new(state);
    let filters = RevisionListQuery { branch: Some("dev".to_string()), ..Default::default() };
    let q = ("custom+1/app".to_string(), filters);
    let page = Revision::list_page(&mut api, &q, 1, 10).unwrap();
    assert_eq!(page.items.len(), 1);
    assert_eq!(page.items[0].locator, "custom+1/app$dev");
}

#[test]
fn dependency_listing_counts_and_slices() {
    let deps: Vec<Dependency> =
        (0..5).map(|k| Fixtures::npm_dependency(&format!("pkg{k}"), "1.0.0", 1)).collect();
    let state = MockState::new().with_dependencies("custom+1/app$main", deps);

    let resp = handlers::list_dependencies_response(
        &state,
        &"custom+1/app$main".to_string(),
        &ListDependenciesQuery { page: Some(2), count: Some(2) },
    );
    assert_eq!(resp.count, 5);
    assert_eq!(resp.dependencies.len(), 2);
    assert_eq!(resp.dependencies[0].locator, "npm+pkg2$1.0.0");

    // A revision with no recorded dependencies yields an empty page,
    // not a not-found error.
    let absent = handlers::list_dependencies_response(
        &state,
        &"custom+1/app$dev".to_string(),
        &ListDependenciesQuery::default(),
    );
    assert_eq!(absent.count, 0);
    assert!(absent.dependencies.is_empty());
}

#[test]
fn dependency_page_source_counted_dialect() {
    let deps: Vec<Dependency> =
        (0..7).map(|k| Fixtures::npm_dependency(&format!("pkg{k}"), "1.0.0", 1)).collect();
    let state = MockState::new().with_dependencies("custom+1/app$main", deps);
    let mut api = MockApi::new(state);

    let q = ("custom+1/app$main".to_string(), DependencyListQuery::default());
    let page = Dependency::list_page(&mut api, &q, 1, 4).unwrap();
    assert_eq!(page.items.len(), 4);
    assert_eq!(page.total, Some(7));
    assert!(page.has_more);

    let last = Dependency::list_page(&mut api, &q, 2, 4).unwrap();
    assert_eq!(last.items.len(), 3);
    assert!(!last.has_more);
}

#[test]
fn issue_listing_uncounted_dialect() {
    let mut state = MockState::new();
    for id in 0..5 {
        state = state.with_issue(Fixtures::vulnerability_issue(
            id,
            &format!("CVE-2024-{id:04}"),
            "high",
            "npm+lodash$4.17.21",
        ));
    }
    let mut api = MockApi::new(state);

    let query = IssueListQuery { category: Some(IssueCategory::Vulnerability), ..Default::default() };
    let page = Issue::list_page(&mut api, &query, 1, 4).unwrap();
    assert_eq!(page.items.len(), 4);
    assert_eq!(page.total, None);
    assert!(page.has_more, "a full page without a total claims more data");

    let last = Issue::list_page(&mut api, &query, 2, 4).unwrap();
    assert_eq!(last.items.len(), 1);
    assert!(!last.has_more);
}

#[test]
fn list_all_walks_issue_pages() {
    let mut state = MockState::new();
    for id in 0..150 {
        state = state.with_issue(Fixtures::licensing_issue(id, "GPL-3.0", "npm+x$1"));
    }
    let mut api = MockApi::new(state);
    let all =
        fossapi::list_all::<MockApi, Issue>(&mut api, &IssueListQuery::default()).unwrap();
    assert_eq!(all.len(), 150);
    // The walk concatenates the fetched pages in order, without
    // reordering or deduplication.
    for (k, issue) in all.iter().enumerate() {
        assert_eq!(issue.id, k as u64);
    }
}

#[test]
fn get_issue_requires_category_and_numeric_id() {
    let state = MockState::new().with_issue(Fixtures::vulnerability_issue(
        27,
        "CVE-2018-16487",
        "critical",
        "npm+lodash$4.2.0",
    ));

    let missing_category =
        handlers::get_issue_response(&state, &"27".to_string(), &GetIssueQuery::default());
    assert_eq!(missing_category.err().unwrap().error, "Validation error");

    let bad_id = handlers::get_issue_response(
        &state,
        &"abc".to_string(),
        &GetIssueQuery { category: Some("vulnerability".to_string()) },
    );
    assert_eq!(bad_id.err().unwrap().error, "Invalid issue ID");

    let found = handlers::get_issue_response(
        &state,
        &"27".to_string(),
        &GetIssueQuery { category: Some("vulnerability".to_string()) },
    )
    .unwrap();
    assert_eq!(found.id, 27);

    let absent = handlers::get_issue_response(
        &state,
        &"99".to_string(),
        &GetIssueQuery { category: Some("vulnerability".to_string()) },
    );
    assert_eq!(absent.err().unwrap().error, "Issue not found");
}

#[test]
fn title_filter_is_case_insensitive_substring() {
    let state = MockState::new()
        .with_project(Fixtures::minimal_project("custom+1/a", "Alpha Project"))
        .with_project(Fixtures::minimal_project("custom+1/b", "beta project"))
        .with_project(Fixtures::minimal_project("custom+1/c", "Gamma"));

    let resp = handlers::list_projects_response(
        &state,
        &ListProjectsQuery { page: None, count: None, title: Some("PROJECT".to_string()) },
    );
    assert_eq!(resp.total, 2);
    assert_eq!(resp.projects.len(), 2);
}

#[test]
fn issue_list_handler_defaults() {
    let mut state = MockState::new();
    for id in 0..25 {
        state = state.with_issue(Fixtures::licensing_issue(id, "GPL-3.0", "npm+x$1"));
    }
    // Default page is 1 and default count is 20.
    let resp = handlers::list_issues_response(&state, &ListIssuesQuery::default());
    assert_eq!(resp.issues.len(), 20);
}

#[test]
fn health_check_answers_ok() {
    assert_eq!(handlers::health_check(), "ok");
}

#[test]
fn default_scenario_get_and_list() {
    let scenario = Fixtures::default_scenario();
    let mut state = MockState::new();
    for p in scenario.projects {
        state = state.with_project(p);
    }
    for r in scenario.revisions {
        state = state.with_revision(r);
    }
    for (locator, deps) in scenario.dependencies {
        state = state.with_dependencies(&locator, deps);
    }
    for i in scenario.issues {
        state = state.with_issue(i);
    }

    let project = state.get_project("custom+1/test-project").unwrap();
    assert_eq!(project.title, "Test Project");
    let revision = state.get_revision("custom+1/test-project$main").unwrap();
    assert_eq!(revision.ref_name.as_deref(), Some("main"));
    let deps = state.get_dependencies("custom+1/test-project$main").unwrap();
    assert_eq!(deps.len(), 3);
    assert!(state.get_issue(1).is_some());
    assert!(state.get_issue(2).is_some());
}

#[test]
fn get_and_update_through_the_capability_traits() {
    let mut api = MockApi::new(three_projects());

    let found = <Project as Get<MockApi>>::get(&mut api, "custom+1/beta".to_string()).unwrap();
    assert_eq!(found.title, "Beta");

    let missing = <Project as Get<MockApi>>::get(&mut api, "custom+1/nope".to_string());
    assert!(missing.is_err());

    let mut params = ProjectUpdateParams::default();
    params.public = Some(true);
    let updated =
        <Project as Update<MockApi>>::update(&mut api, "custom+1/beta".to_string(), params)
            .unwrap();
    assert!(updated.public);
    assert_eq!(updated.title, "Beta");
}

#[test]
fn navigation_from_project_to_revisions_to_dependencies() {
    let state = MockState::new()
        .with_project(Fixtures::analyzed_project("custom+1/app", "App", "main"))
        .with_revision(Fixtures::minimal_revision("custom+1/app$main"))
        .with_dependencies(
            "custom+1/app$main",
            vec![Fixtures::npm_dependency("lodash", "4.17.21", 1)],
        );
    let mut api = MockApi::new(state);

    let project = api.state.get_project("custom+1/app").unwrap().clone();
    let revisions = project.revisions(&mut api).unwrap();
    assert_eq!(revisions.len(), 1);
    let deps = revisions[0].dependencies(&mut api).unwrap();
    assert_eq!(deps.len(), 1);
    assert_eq!(deps[0].locator, "npm+lodash$4.17.21");

    let latest = project.get_latest_revision(&mut api).unwrap();
    assert_eq!(latest.unwrap().locator, "custom+1/app$main");
}
