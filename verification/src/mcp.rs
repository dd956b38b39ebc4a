//! The decision logic of the tool-calling bridge: which request each
//! tool call turns into, with its validation and pagination defaults.
//! The transport that carries the calls and renders the answers lives
//! outside this crate.

use vstd::prelude::*;

use crate::issue::IssueCategory;
use crate::project::clone_opt_string;
use crate::project::ProjectUpdateParams;
use crate::strutil::parse_u64;
use crate::strutil::parse_u64_spec;

verus! {

/// Default page size of a list tool call.
pub const MCP_DEFAULT_COUNT: u32 = 20;

/// Largest page size a list tool call may use.
pub const MCP_MAX_COUNT: u32 = 100;

/// Entity kinds the tools operate on.
#[derive(Clone, Copy, Debug, PartialEq, Eq, Structural)]
pub enum EntityType {
    /// A project.
    Project,
    /// A project revision.
    Revision,
    /// A security, licensing, or quality issue.
    Issue,
    /// A package dependency.
    Dependency,
}

/// Parameters of the `get` tool.
#[derive(Debug)]
pub struct GetParams {
    /// The type of entity to fetch.
    pub entity: EntityType,
    /// The entity identifier (locator or ID).
    pub id: String,
    /// Issue category (required when fetching an issue).
    pub category: Option<IssueCategory>,
}

/// Parameters of the `list` tool.
#[derive(Debug)]
pub struct ListParams {
    /// The type of entity to list.
    pub entity: EntityType,
    /// Parent entity locator (required for revisions and dependencies).
    pub parent: Option<String>,
    /// Page number (1-indexed).
    pub page: Option<u32>,
    /// Number of items per page (capped at [`MCP_MAX_COUNT`]).
    pub count: Option<u32>,
    /// Issue category filter (required when listing issues).
    pub category: Option<IssueCategory>,
}

/// Parameters of the `update` tool.
#[derive(Debug)]
pub struct UpdateParams {
    /// The type of entity to update.
    pub entity: EntityType,
    /// The entity locator.
    pub locator: String,
    /// New title (projects only).
    pub title: Option<String>,
    /// New description (projects only).
    pub description: Option<String>,
    /// New URL (projects only).
    pub url: Option<String>,
    /// Whether the project is public (projects only).
    pub public: Option<bool>,
}

/// The request a valid `get` tool call turns into.
#[derive(Debug)]
pub enum GetPlan {
    /// Fetch a project by locator.
    Project {
        /// The project locator.
        locator: String,
    },
    /// Fetch a revision by locator.
    Revision {
        /// The revision locator.
        locator: String,
    },
    /// Fetch an issue by numeric id, in a category.
    Issue {
        /// The issue id.
        id: u64,
        /// The category the caller asked about.
        category: IssueCategory,
    },
}

/// Why a tool call is rejected before any request is made.
#[derive(Debug)]
pub enum McpRejection {
    /// The entity kind does not support this tool.
    Unsupported,
    /// A required parent locator is missing.
    MissingParent,
    /// A required issue category is missing.
    MissingCategory,
    /// The id is not a number.
    InvalidId,
}

/// Decide what a `get` tool call asks for: projects and revisions are
/// fetched by locator; issues need a numeric id and a category;
/// dependencies do not support `get` at all.
pub fn plan_get(params: GetParams) -> (r: Result<GetPlan, McpRejection>)
    ensures
        match params.entity {
            EntityType::Project => r matches Ok(GetPlan::Project { locator }) && locator@
                == params.id@,
            EntityType::Revision => r matches Ok(GetPlan::Revision { locator }) && locator@
                == params.id@,
            EntityType::Issue => {
                if params.category is None {
                    r matches Err(McpRejection::MissingCategory)
                } else {
                    match parse_u64_spec(params.id@) {
                        Some(n) => r matches Ok(GetPlan::Issue { id, category }) && id == n
                            && Some(category) == params.category,
                        None => r matches Err(McpRejection::InvalidId),
                    }
                }
            },
            EntityType::Dependency => r matches Err(McpRejection::Unsupported),
        },
{
    match params.entity {
        EntityType::Project => Ok(GetPlan::Project { locator: params.id }),
        EntityType::Revision => Ok(GetPlan::Revision { locator: params.id }),
        EntityType::Issue => {
            let category = match params.category {
                Some(c) => c,
                None => {
                    return Err(McpRejection::MissingCategory);
                },
            };
            match parse_u64(params.id.as_str()) {
                Some(id) => Ok(GetPlan::Issue { id, category }),
                None => Err(McpRejection::InvalidId),
            }
        },
        EntityType::Dependency => Err(McpRejection::Unsupported),
    }
}

/// The request a valid `list` tool call turns into, with its resolved
/// page and count.
#[derive(Debug)]
pub enum ListPlan {
    /// List projects.
    Projects {
        /// Resolved page number.
        page: u32,
        /// Resolved page size.
        count: u32,
    },
    /// List the revisions of a project.
    Revisions {
        /// The project locator.
        parent: String,
        /// Resolved page number.
        page: u32,
        /// Resolved page size.
        count: u32,
    },
    /// List issues of one category.
    Issues {
        /// The category to list.
        category: IssueCategory,
        /// Resolved page number.
        page: u32,
        /// Resolved page size.
        count: u32,
    },
    /// List the dependencies of a revision.
    Dependencies {
        /// The revision locator.
        parent: String,
        /// Resolved page number.
        page: u32,
        /// Resolved page size.
        count: u32,
    },
}

/// The resolved page number of a list call: 1 when absent.
pub open spec fn spec_resolved_page(page: Option<u32>) -> u32 {
    match page {
        Some(p) => p,
        None => 1u32,
    }
}

/// The resolved page size of a list call: the default when absent,
/// capped at the maximum.
pub open spec fn spec_resolved_count(count: Option<u32>) -> u32 {
    let c = match count {
        Some(c) => c,
        None => MCP_DEFAULT_COUNT,
    };
    if c > MCP_MAX_COUNT {
        MCP_MAX_COUNT
    } else {
        c
    }
}

/// Decide what a `list` tool call asks for: the page defaults to 1 and
/// the count to the default size capped at the maximum; revisions and
/// dependencies need a parent locator; issues need a category.
pub fn plan_list(params: ListParams) -> (r: Result<ListPlan, McpRejection>)
    ensures
        ({
            let page = spec_resolved_page(params.page);
            let count = spec_resolved_count(params.count);
            match params.entity {
                EntityType::Project => r matches Ok(ListPlan::Projects { page: p, count: c }) && p
                    == page && c == count,
                EntityType::Revision => match params.parent {
                    Some(parent) => r matches Ok(
                        ListPlan::Revisions { parent: q, page: p, count: c },
                    ) && q@ == parent@ && p == page && c == count,
                    None => r matches Err(McpRejection::MissingParent),
                },
                EntityType::Issue => match params.category {
                    Some(cat) => r matches Ok(
                        ListPlan::Issues { category: x, page: p, count: c },
                    ) && x == cat && p == page && c == count,
                    None => r matches Err(McpRejection::MissingCategory),
                },
                EntityType::Dependency => match params.parent {
                    Some(parent) => r matches Ok(
                        ListPlan::Dependencies { parent: q, page: p, count: c },
                    ) && q@ == parent@ && p == page && c == count,
                    None => r matches Err(McpRejection::MissingParent),
                },
            }
        }),
{
    let page = match params.page {
        Some(p) => p,
        None => 1,
    };
    let c0 = match params.count {
        Some(c) => c,
        None => MCP_DEFAULT_COUNT,
    };
    let count = if c0 > MCP_MAX_COUNT {
        MCP_MAX_COUNT
    } else {
        c0
    };
    match params.entity {
        EntityType::Project => Ok(ListPlan::Projects { page, count }),
        EntityType::Revision => match params.parent {
            Some(parent) => Ok(ListPlan::Revisions { parent, page, count }),
            None => Err(McpRejection::MissingParent),
        },
        EntityType::Issue => match params.category {
            Some(category) => Ok(ListPlan::Issues { category, page, count }),
            None => Err(McpRejection::MissingCategory),
        },
        EntityType::Dependency => match params.parent {
            Some(parent) => Ok(ListPlan::Dependencies { parent, page, count }),
            None => Err(McpRejection::MissingParent),
        },
    }
}

/// The request a valid `update` tool call turns into.
#[derive(Debug)]
pub struct UpdatePlan {
    /// The project locator to update.
    pub locator: String,
    /// The partial update to apply.
    pub params: ProjectUpdateParams,
}

/// Decide what an `update` tool call asks for: only projects support
/// update; title, description, url and public are passed through, and
/// the fields the tool does not expose stay unset.
pub fn plan_update(params: UpdateParams) -> (r: Result<UpdatePlan, McpRejection>)
    ensures
        match params.entity {
            EntityType::Project => r matches Ok(plan) && plan.locator@ == params.locator@
                && plan.params.title == params.title && plan.params.description
                == params.description && plan.params.url == params.url && plan.params.public
                == params.public && plan.params.policy_id is None
                && plan.params.default_branch is None,
            _ => r matches Err(McpRejection::Unsupported),
        },
{
    match params.entity {
        EntityType::Project => Ok(
            UpdatePlan {
                locator: params.locator,
                params: ProjectUpdateParams {
                    title: params.title,
                    description: params.description,
                    url: params.url,
                    public: params.public,
                    policy_id: None,
                    default_branch: None,
                },
            },
        ),
        _ => Err(McpRejection::Unsupported),
    }
}

impl Clone for GetParams {
    fn clone(&self) -> (res: Self)
        ensures
            res.entity == self.entity,
            res.id@ == self.id@,
            res.category == self.category,
    {
        GetParams { entity: self.entity, id: self.id.clone(), category: self.category }
    }
}

impl Clone for ListParams {
    fn clone(&self) -> (res: Self)
        ensures
            res.entity == self.entity,
            res.parent == self.parent,
            res.page == self.page,
            res.count == self.count,
            res.category == self.category,
    {
        ListParams {
            entity: self.entity,
            parent: clone_opt_string(&self.parent),
            page: self.page,
            count: self.count,
            category: self.category,
        }
    }
}

impl Clone for UpdateParams {
    fn clone(&self) -> (res: Self)
        ensures
            res.entity == self.entity,
            res.locator@ == self.locator@,
            res.title == self.title,
            res.description == self.description,
            res.url == self.url,
            res.public == self.public,
    {
        UpdateParams {
            entity: self.entity,
            locator: self.locator.clone(),
            title: clone_opt_string(&self.title),
            description: clone_opt_string(&self.description),
            url: clone_opt_string(&self.url),
            public: self.public,
        }
    }
}

} // verus!
