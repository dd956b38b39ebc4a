//! Tests of the tool-call planning logic: validation and defaults.

use fossapi::mcp::plan_get;
use fossapi::mcp::plan_list;
use fossapi::mcp::plan_update;
use fossapi::mcp::GetPlan;
use fossapi::mcp::ListPlan;
use fossapi::mcp::McpRejection;
use fossapi::EntityType;
use fossapi::GetParams;
use fossapi::IssueCategory;
use fossapi::ListParams;
use fossapi::UpdateParams;

fn list_params(entity: EntityType) -> ListParams {
    ListParams { entity, parent: None, page: None, count: None, category: None }
}

#[test]
fn get_project_plans_by_locator() {
    let plan = plan_get(GetParams {
        entity: EntityType::Project,
        id: "custom+1/app".to_string(),
        category: None,
    })
    .unwrap();
    assert!(matches!(plan, GetPlan::Project { locator } if locator == "custom+1/app"));
}

#[test]
fn get_issue_requires_category_and_number() {
    let missing = plan_get(GetParams {
        entity: EntityType::Issue,
        id: "12".to_string(),
        category: None,
    });
    assert!(matches!(missing, Err(McpRejection::MissingCategory)));

    let bad = plan_get(GetParams {
        entity: EntityType::Issue,
        id: "abc".to_string(),
        category: Some(IssueCategory::Quality),
    });
    assert!(matches!(bad, Err(McpRejection::InvalidId)));

    let ok = plan_get(GetParams {
        entity: EntityType::Issue,
        id: "12".to_string(),
        category: Some(IssueCategory::Quality),
    })
    .unwrap();
    assert!(matches!(ok, GetPlan::Issue { id: 12, category: IssueCategory::Quality }));
}

#[test]
fn get_dependency_is_unsupported() {
    let plan = plan_get(GetParams {
        entity: EntityType::Dependency,
        id: "npm+x$1".to_string(),
        category: None,
    });
    assert!(matches!(plan, Err(McpRejection::Unsupported)));
}

#[test]
fn list_uses_pagination_defaults() {
    let plan = plan_list(list_params(EntityType::Project)).unwrap();
    assert!(matches!(plan, ListPlan::Projects { page: 1, count: 20 }));
}

#[test]
fn list_caps_count_at_maximum() {
    let mut params = list_params(EntityType::Project);
    params.count = Some(500);
    let plan = plan_list(params).unwrap();
    assert!(matches!(plan, ListPlan::Projects { page: 1, count: 100 }));
}

#[test]
fn list_revisions_requires_parent() {
    let missing = plan_list(list_params(EntityType::Revision));
    assert!(matches!(missing, Err(McpRejection::MissingParent)));

    let mut params = list_params(EntityType::Revision);
    params.parent = Some("custom+1/app".to_string());
    params.page = Some(2);
    let plan = plan_list(params).unwrap();
    assert!(
        matches!(plan, ListPlan::Revisions { parent, page: 2, count: 20 } if parent == "custom+1/app")
    );
}

#[test]
fn list_dependencies_requires_parent() {
    let missing = plan_list(list_params(EntityType::Dependency));
    assert!(matches!(missing, Err(McpRejection::MissingParent)));
}

#[test]
fn list_issues_requires_category() {
    let missing = plan_list(list_params(EntityType::Issue));
    assert!(matches!(missing, Err(McpRejection::MissingCategory)));

    let mut params = list_params(EntityType::Issue);
    params.category = Some(IssueCategory::Licensing);
    let plan = plan_list(params).unwrap();
    assert!(matches!(
        plan,
        ListPlan::Issues { category: IssueCategory::Licensing, page: 1, count: 20 }
    ));
}

#[test]
fn update_supports_projects_only() {
    let ok = plan_update(UpdateParams {
        entity: EntityType::Project,
        locator: "custom+1/app".to_string(),
        title: Some("T".to_string()),
        description: Some("D".to_string()),
        url: None,
        public: Some(true),
    })
    .unwrap();
    assert_eq!(ok.locator, "custom+1/app");
    assert_eq!(ok.params.title.as_deref(), Some("T"));
    assert_eq!(ok.params.description.as_deref(), Some("D"));
    assert_eq!(ok.params.public, Some(true));
    assert_eq!(ok.params.policy_id, None);
    assert_eq!(ok.params.default_branch, None);

    for entity in [EntityType::Revision, EntityType::Issue, EntityType::Dependency] {
        let rejected = plan_update(UpdateParams {
            entity,
            locator: "x".to_string(),
            title: None,
            description: None,
            url: None,
            public: None,
        });
        assert!(matches!(rejected, Err(McpRejection::Unsupported)));
    }
}
