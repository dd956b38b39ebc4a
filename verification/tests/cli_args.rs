//! Tests of the command-line grammar.

use fossapi::Cli;
use fossapi::Command;
use fossapi::Entity;
use fossapi::GetCommand;
use fossapi::ListCommand;

fn argv(parts: &[&str]) -> Vec<String> {
    parts.iter().map(|s| s.to_string()).collect()
}

fn parse(parts: &[&str]) -> Cli {
    Cli::parse_from(argv(parts)).expect("arguments should parse")
}

#[test]
fn test_cli_parses_get_subcommand() {
    let cli = parse(&["fossapi", "get", "project", "custom+acme/myapp"]);

    assert!(!cli.json);
    match cli.command {
        Command::Get { command: GetCommand::Project { locator } } => {
            assert_eq!(locator, "custom+acme/myapp");
        }
        _ => panic!("Expected Get command with Project variant"),
    }
}

#[test]
fn test_cli_parses_list_subcommand() {
    let cli = parse(&["fossapi", "list", "projects"]);

    assert!(!cli.json);
    match cli.command {
        Command::List { command: ListCommand::Projects { .. } } => {}
        _ => panic!("Expected List command with Projects variant"),
    }
}

#[test]
fn test_cli_parses_update_subcommand() {
    let cli = parse(&[
        "fossapi",
        "update",
        "project",
        "custom+acme/myapp",
        "--title",
        "New Title",
    ]);

    assert!(!cli.json);
    match cli.command {
        Command::Update {
            entity,
            locator,
            title,
            ..
        } => {
            assert!(matches!(entity, Entity::Project));
            assert_eq!(locator, "custom+acme/myapp");
            assert_eq!(title, Some("New Title".to_string()));
        }
        _ => panic!("Expected Update command"),
    }
}

#[test]
fn test_global_json_flag() {
    // --json before subcommand
    let cli = parse(&["fossapi", "--json", "list", "projects"]);
    assert!(cli.json);

    // --json after subcommand args (global flag)
    let cli = parse(&["fossapi", "list", "projects", "--json"]);
    assert!(cli.json);
}

#[test]
fn test_list_pagination_args() {
    let cli = parse(&["fossapi", "list", "projects", "--page", "2", "--count", "50"]);

    match cli.command {
        Command::List { command: ListCommand::Projects { page, count } } => {
            assert_eq!(page, Some(2));
            assert_eq!(count, Some(50));
        }
        _ => panic!("Expected List command with Projects variant"),
    }
}

#[test]
fn test_entity_variants() {
    // Project (get uses GetCommand)
    let cli = parse(&["fossapi", "get", "project", "loc"]);
    assert!(matches!(cli.command, Command::Get { command: GetCommand::Project { .. } }));

    // Revision (get uses GetCommand)
    let cli = parse(&["fossapi", "get", "revision", "loc"]);
    assert!(matches!(cli.command, Command::Get { command: GetCommand::Revision { .. } }));

    // Issue (get uses GetCommand with u64 id)
    let cli = parse(&["fossapi", "get", "issue", "123"]);
    assert!(matches!(cli.command, Command::Get { command: GetCommand::Issue { id: 123 } }));

    // Dependencies (list uses ListCommand with required revision)
    let cli = parse(&["fossapi", "list", "dependencies", "loc"]);
    assert!(matches!(cli.command, Command::List { command: ListCommand::Dependencies { .. } }));
}

#[test]
fn test_get_project_parses_locator() {
    let cli = parse(&["fossapi", "get", "project", "custom+acme/myapp"]);
    match cli.command {
        Command::Get { command: GetCommand::Project { locator } } => {
            assert_eq!(locator, "custom+acme/myapp");
        }
        _ => panic!("Expected GetCommand::Project"),
    }
}

#[test]
fn test_get_revision_parses_locator() {
    let cli = parse(&["fossapi", "get", "revision", "custom+acme/myapp$abc123"]);
    match cli.command {
        Command::Get { command: GetCommand::Revision { locator } } => {
            assert_eq!(locator, "custom+acme/myapp$abc123");
        }
        _ => panic!("Expected GetCommand::Revision"),
    }
}

#[test]
fn test_get_issue_parses_numeric_id() {
    let cli = parse(&["fossapi", "get", "issue", "12345"]);
    match cli.command {
        Command::Get { command: GetCommand::Issue { id } } => {
            assert_eq!(id, 12345u64);
        }
        _ => panic!("Expected GetCommand::Issue"),
    }
}

#[test]
fn test_list_projects_parses() {
    let cli = parse(&["fossapi", "list", "projects"]);
    match cli.command {
        Command::List { command: ListCommand::Projects { page, count } } => {
            assert_eq!(page, None);
            assert_eq!(count, None);
        }
        _ => panic!("Expected ListCommand::Projects"),
    }
}

#[test]
fn test_list_projects_with_pagination() {
    let cli = parse(&["fossapi", "list", "projects", "--page", "2", "--count", "50"]);
    match cli.command {
        Command::List { command: ListCommand::Projects { page, count } } => {
            assert_eq!(page, Some(2));
            assert_eq!(count, Some(50));
        }
        _ => panic!("Expected ListCommand::Projects"),
    }
}

#[test]
fn test_list_issues_parses() {
    let cli = parse(&["fossapi", "list", "issues"]);
    assert!(matches!(
        cli.command,
        Command::List { command: ListCommand::Issues { .. } }
    ));
}

#[test]
fn test_list_dependencies_requires_revision_arg() {
    let cli = parse(&["fossapi", "list", "dependencies", "custom+org/repo$abc"]);
    match cli.command {
        Command::List { command: ListCommand::Dependencies { revision, revision_positional } } => {
            assert_eq!(revision, None);
            assert_eq!(revision_positional, Some("custom+org/repo$abc".to_string()));
        }
        _ => panic!("Expected ListCommand::Dependencies"),
    }
}

#[test]
fn test_list_revisions_requires_project_arg() {
    let cli = parse(&["fossapi", "list", "revisions", "custom+org/repo"]);
    match cli.command {
        Command::List { command: ListCommand::Revisions { project, .. } } => {
            assert_eq!(project, "custom+org/repo");
        }
        _ => panic!("Expected ListCommand::Revisions"),
    }
}

#[test]
fn test_list_issues_with_pagination() {
    let cli = parse(&["fossapi", "list", "issues", "--page", "3", "--count", "25"]);
    match cli.command {
        Command::List { command: ListCommand::Issues { page, count } } => {
            assert_eq!(page, Some(3));
            assert_eq!(count, Some(25));
        }
        _ => panic!("Expected ListCommand::Issues"),
    }
}

#[test]
fn test_list_revisions_with_pagination() {
    let cli = parse(&["fossapi", "list", "revisions", "custom+org/repo", "--page", "2"]);
    match cli.command {
        Command::List { command: ListCommand::Revisions { project, page, count } } => {
            assert_eq!(project, "custom+org/repo");
            assert_eq!(page, Some(2));
            assert_eq!(count, None);
        }
        _ => panic!("Expected ListCommand::Revisions"),
    }
}

#[test]
fn test_list_dependencies_with_revision_flag() {
    let cli = parse(&["fossapi", "list", "dependencies", "--revision", "custom+org/repo$abc"]);
    match cli.command {
        Command::List { command: ListCommand::Dependencies { revision, revision_positional } } => {
            assert_eq!(revision, Some("custom+org/repo$abc".to_string()));
            assert_eq!(revision_positional, None);
        }
        _ => panic!("Expected ListCommand::Dependencies"),
    }
}

#[test]
fn test_update_project_parses_locator() {
    let cli = parse(&["fossapi", "update", "project", "custom+acme/myapp"]);
    match cli.command {
        Command::Update { entity, locator, .. } => {
            assert!(matches!(entity, Entity::Project));
            assert_eq!(locator, "custom+acme/myapp");
        }
        _ => panic!("Expected Update command"),
    }
}

#[test]
fn test_update_project_title_flag() {
    let cli = parse(&[
        "fossapi",
        "update",
        "project",
        "custom+acme/myapp",
        "--title",
        "New Title",
    ]);
    match cli.command {
        Command::Update { title, .. } => {
            assert_eq!(title, Some("New Title".to_string()));
        }
        _ => panic!("Expected Update command"),
    }
}

#[test]
fn test_update_project_public_flag() {
    let cli = parse(&[
        "fossapi",
        "update",
        "project",
        "custom+acme/myapp",
        "--public",
        "true",
    ]);
    match cli.command {
        Command::Update { public, .. } => {
            assert_eq!(public, Some(true));
        }
        _ => panic!("Expected Update command"),
    }
}

#[test]
fn test_update_project_multiple_flags() {
    let cli = parse(&[
        "fossapi",
        "update",
        "project",
        "custom+acme/myapp",
        "--title",
        "New Title",
        "--public",
        "false",
    ]);
    match cli.command {
        Command::Update {
            entity,
            locator,
            title,
            public,
            ..
        } => {
            assert!(matches!(entity, Entity::Project));
            assert_eq!(locator, "custom+acme/myapp");
            assert_eq!(title, Some("New Title".to_string()));
            assert_eq!(public, Some(false));
        }
        _ => panic!("Expected Update command"),
    }
}

#[test]
fn rejected_command_lines() {
    assert!(Cli::parse_from(argv(&["fossapi"])).is_err());
    assert!(Cli::parse_from(argv(&["fossapi", "frobnicate"])).is_err());
    assert!(Cli::parse_from(argv(&["fossapi", "get", "project"])).is_err());
    assert!(Cli::parse_from(argv(&["fossapi", "get", "issue", "not-a-number"])).is_err());
    assert!(Cli::parse_from(argv(&["fossapi", "list", "dependencies"])).is_err());
    assert!(Cli::parse_from(argv(&["fossapi", "list", "projects", "--page"])).is_err());
    assert!(Cli::parse_from(argv(&["fossapi", "list", "projects", "--page", "2", "--page", "3"]))
        .is_err());
    assert!(Cli::parse_from(argv(&["fossapi", "update", "project", "loc", "--public", "maybe"]))
        .is_err());
}

#[test]
fn mcp_subcommand_parses() {
    let cli = parse(&["fossapi", "mcp"]);
    assert!(matches!(cli.command, Command::Mcp { verbose: false }));
    let cli = parse(&["fossapi", "mcp", "--verbose"]);
    assert!(matches!(cli.command, Command::Mcp { verbose: true }));
}
