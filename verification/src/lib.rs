//! A typed client core and in-memory test double for a software-composition
//! analysis REST API.
//!
//! The crate centers on two pieces: a generic pagination protocol (a `Page`
//! value type, a listing capability, and a "fetch everything" walk built on
//! top of it), and a mock API server state that reproduces the upstream
//! pagination dialects so that a client can be exercised end to end without
//! a network.

pub mod cli;
pub mod codec;
pub mod dependency;
pub mod error;
pub mod fixtures;
pub mod grouping;
pub mod handlers;
pub mod issue;
pub mod listing;
pub mod mcp;
pub mod mock_api;
pub mod pagination;
pub mod project;
pub mod revision;
pub mod state;
pub mod strutil;

pub use cli::Cli;
pub use cli::CliError;
pub use cli::Command;
pub use cli::Entity;
pub use cli::GetCommand;
pub use cli::ListCommand;
pub use dependency::BaseConclusion;
pub use dependency::ConcludedLicenses;
pub use dependency::Dependency;
pub use dependency::DependencyIssue;
pub use dependency::DependencyListQuery;
pub use dependency::DependencyQuery;
pub use dependency::DependencyRootProject;
pub use dependency::DependencyStatus;
pub use dependency::IssueStatus;
pub use dependency::IssueType;
pub use dependency::LicenseInfo;
pub use dependency::ScopedConclusion;
pub use dependency::get_dependencies;
pub use dependency::get_dependencies_page;
pub use error::FossaError;
pub use fixtures::DefaultScenario;
pub use fixtures::Fixtures;
pub use issue::Issue;
pub use issue::IssueCategory;
pub use issue::IssueDepths;
pub use issue::IssueListQuery;
pub use issue::IssueProject;
pub use issue::IssueRemediation;
pub use issue::IssueSource;
pub use issue::IssueStatuses;
pub use issue::get_issues;
pub use issue::get_issues_page;
pub use issue::get_project_issues;
pub use listing::Get;
pub use listing::List;
pub use listing::Update;
pub use listing::list_all;
pub use listing::should_fetch_next;
pub use mcp::EntityType;
pub use mcp::GetParams;
pub use mcp::ListParams;
pub use mcp::UpdateParams;
pub use mock_api::MockApi;
pub use pagination::DEFAULT_PAGE_SIZE;
pub use pagination::MAX_PAGES;
pub use pagination::Page;
pub use pagination::PaginationParams;
pub use project::LatestRevision;
pub use project::Project;
pub use project::ProjectIssues;
pub use project::ProjectListQuery;
pub use project::ProjectUpdateParams;
pub use revision::Revision;
pub use revision::RevisionIssues;
pub use revision::RevisionListQuery;
pub use revision::RevisionQuery;
pub use revision::RevisionStats;
pub use revision::RevisionStatus;
pub use revision::get_revision;
pub use revision::get_revisions;
pub use revision::get_revisions_page;
pub use state::DependencyEntry;
pub use state::MockState;
