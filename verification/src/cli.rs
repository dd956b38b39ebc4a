//! The command-line grammar: commands for getting, listing and updating
//! resources, parsed from plain argument strings.
//!
//! The grammar is stated as a spec-level parse function over the
//! argument views, and the executable parser is proved to agree with it
//! exactly. The `--json` switch is global: it may stand anywhere after
//! the program name. An argument that is not a recognized option is
//! taken as a value.

use vstd::prelude::*;

use crate::strutil::parse_u32;
use crate::strutil::parse_u32_spec;
use crate::strutil::parse_u64;
use crate::strutil::parse_u64_spec;
use crate::strutil::str_eq;

verus! {

/// Entity kinds that can be operated on.
#[derive(Clone, Copy, Debug, PartialEq, Eq, Structural)]
pub enum Entity {
    /// A project.
    Project,
    /// A project revision.
    Revision,
    /// A package dependency.
    Dependency,
    /// A security/licensing/quality issue.
    Issue,
}

/// Subcommands of `get`, with type-safe id parsing.
#[derive(Debug, PartialEq, Eq)]
pub enum GetCommand {
    /// Get a project by locator.
    Project {
        /// The project locator (e.g., "custom+org/repo").
        locator: String,
    },
    /// Get a revision by locator.
    Revision {
        /// The revision locator (e.g., "custom+org/repo$ref").
        locator: String,
    },
    /// Get an issue by numeric ID.
    Issue {
        /// The issue ID.
        id: u64,
    },
}

/// Subcommands of `list`, with type-safe argument parsing.
#[derive(Debug, PartialEq, Eq)]
pub enum ListCommand {
    /// List all projects.
    Projects {
        /// Page number (1-indexed).
        page: Option<u32>,
        /// Number of items per page.
        count: Option<u32>,
    },
    /// List all issues.
    Issues {
        /// Page number (1-indexed).
        page: Option<u32>,
        /// Number of items per page.
        count: Option<u32>,
    },
    /// List dependencies for a revision.
    Dependencies {
        /// The revision locator, given as `--revision`.
        revision: Option<String>,
        /// The revision locator, given positionally.
        revision_positional: Option<String>,
    },
    /// List revisions for a project.
    Revisions {
        /// The project locator.
        project: String,
        /// Page number (1-indexed).
        page: Option<u32>,
        /// Number of items per page.
        count: Option<u32>,
    },
}

/// The commands of the tool.
#[derive(Debug)]
#[allow(inconsistent_fields)]
pub enum Command {
    /// Get a single entity by locator or ID.
    Get {
        /// Which entity, and its id.
        command: GetCommand,
    },
    /// List entities with optional pagination.
    List {
        /// Which listing, and its arguments.
        command: ListCommand,
    },
    /// Update an entity.
    Update {
        /// The type of entity to update.
        entity: Entity,
        /// The locator of the entity to update.
        locator: String,
        /// New title for the entity.
        title: Option<String>,
        /// New description for the entity.
        description: Option<String>,
        /// New visibility (true = public, false = private).
        public: Option<bool>,
    },
    /// Run the protocol-bridge server on stdio.
    Mcp {
        /// Enable verbose (debug) logging.
        verbose: bool,
    },
}

/// The parsed command line.
#[derive(Debug)]
pub struct Cli {
    /// Output results as JSON instead of a table.
    pub json: bool,
    /// The command to run.
    pub command: Command,
}

/// A rejected command line.
#[derive(Debug)]
pub struct CliError {
    /// What was wrong, for display.
    pub message: String,
}

/// The model of a [`GetCommand`].
pub enum GetCommandSpec {
    Project(Seq<char>),
    Revision(Seq<char>),
    Issue(u64),
}

/// The model of a [`ListCommand`].
pub enum ListCommandSpec {
    Projects { page: Option<u32>, count: Option<u32> },
    Issues { page: Option<u32>, count: Option<u32> },
    Dependencies { revision: Option<Seq<char>>, revision_positional: Option<Seq<char>> },
    Revisions { project: Seq<char>, page: Option<u32>, count: Option<u32> },
}

/// The model of a [`Command`].
pub enum CommandSpec {
    Get(GetCommandSpec),
    List(ListCommandSpec),
    Update {
        entity: Entity,
        locator: Seq<char>,
        title: Option<Seq<char>>,
        description: Option<Seq<char>>,
        public: Option<bool>,
    },
    Mcp { verbose: bool },
}

/// The model of a [`Cli`].
pub struct CliSpec {
    pub json: bool,
    pub command: CommandSpec,
}

impl View for GetCommand {
    type V = GetCommandSpec;

    open spec fn view(&self) -> GetCommandSpec {
        match self {
            GetCommand::Project { locator } => GetCommandSpec::Project(locator@),
            GetCommand::Revision { locator } => GetCommandSpec::Revision(locator@),
            GetCommand::Issue { id } => GetCommandSpec::Issue(*id),
        }
    }
}

impl View for ListCommand {
    type V = ListCommandSpec;

    open spec fn view(&self) -> ListCommandSpec {
        match self {
            ListCommand::Projects { page, count } => ListCommandSpec::Projects {
                page: *page,
                count: *count,
            },
            ListCommand::Issues { page, count } => ListCommandSpec::Issues {
                page: *page,
                count: *count,
            },
            ListCommand::Dependencies { revision, revision_positional } => {
                ListCommandSpec::Dependencies {
                    revision: match revision {
                        Some(s) => Some(s@),
                        None => None,
                    },
                    revision_positional: match revision_positional {
                        Some(s) => Some(s@),
                        None => None,
                    },
                }
            },
            ListCommand::Revisions { project, page, count } => ListCommandSpec::Revisions {
                project: project@,
                page: *page,
                count: *count,
            },
        }
    }
}

impl View for Command {
    type V = CommandSpec;

    open spec fn view(&self) -> CommandSpec {
        match self {
            Command::Get { command } => CommandSpec::Get(command@),
            Command::List { command } => CommandSpec::List(command@),
            Command::Update { entity, locator, title, description, public } => {
                CommandSpec::Update {
                    entity: *entity,
                    locator: locator@,
                    title: match title {
                        Some(s) => Some(s@),
                        None => None,
                    },
                    description: match description {
                        Some(s) => Some(s@),
                        None => None,
                    },
                    public: *public,
                }
            },
            Command::Mcp { verbose } => CommandSpec::Mcp { verbose: *verbose },
        }
    }
}

impl View for Cli {
    type V = CliSpec;

    open spec fn view(&self) -> CliSpec {
        CliSpec { json: self.json, command: self.command@ }
    }
}

/// The views of an argument list.
pub open spec fn arg_views(args: Seq<String>) -> Seq<Seq<char>> {
    args.map_values(|s: String| s@)
}

/// Whether the global `--json` switch occurs among the arguments.
pub open spec fn spec_has_json(args: Seq<Seq<char>>) -> bool {
    exists|i: int| 0 <= i < args.len() && args[i] == "--json"@
}

/// The arguments with every `--json` switch removed.
pub open spec fn spec_strip_json(args: Seq<Seq<char>>) -> Seq<Seq<char>> {
    args.filter(|a: Seq<char>| a != "--json"@)
}

/// The value `true` or `false`, and nothing else.
pub open spec fn spec_parse_bool(s: Seq<char>) -> Option<bool> {
    if s == "true"@ {
        Some(true)
    } else if s == "false"@ {
        Some(false)
    } else {
        None
    }
}

/// The entity named by one argument; singular and plural are accepted.
pub open spec fn spec_entity(w: Seq<char>) -> Option<Entity> {
    if w == "project"@ || w == "projects"@ {
        Some(Entity::Project)
    } else if w == "revision"@ || w == "revisions"@ {
        Some(Entity::Revision)
    } else if w == "dependency"@ || w == "dependencies"@ {
        Some(Entity::Dependency)
    } else if w == "issue"@ || w == "issues"@ {
        Some(Entity::Issue)
    } else {
        None
    }
}

/// A `get` subcommand: an entity word and exactly one id argument.
pub open spec fn spec_parse_get(a: Seq<Seq<char>>) -> Option<GetCommandSpec> {
    if a.len() != 2 {
        None
    } else if a[0] == "project"@ || a[0] == "projects"@ {
        Some(GetCommandSpec::Project(a[1]))
    } else if a[0] == "revision"@ || a[0] == "revisions"@ {
        Some(GetCommandSpec::Revision(a[1]))
    } else if a[0] == "issue"@ || a[0] == "issues"@ {
        match parse_u64_spec(a[1]) {
            Some(id) => Some(GetCommandSpec::Issue(id)),
            None => None,
        }
    } else {
        None
    }
}

/// The trailing `--page N` / `--count N` options of a listing, each at
/// most once, in any order; anything else is rejected.
pub open spec fn spec_page_count(a: Seq<Seq<char>>, page: Option<u32>, count: Option<u32>) -> Option<
    (Option<u32>, Option<u32>),
>
    decreases a.len(),
{
    if a.len() == 0 {
        Some((page, count))
    } else if a[0] == "--page"@ {
        if a.len() < 2 || page is Some {
            None
        } else {
            match parse_u32_spec(a[1]) {
                Some(n) => spec_page_count(a.skip(2), Some(n), count),
                None => None,
            }
        }
    } else if a[0] == "--count"@ {
        if a.len() < 2 || count is Some {
            None
        } else {
            match parse_u32_spec(a[1]) {
                Some(n) => spec_page_count(a.skip(2), page, Some(n)),
                None => None,
            }
        }
    } else {
        None
    }
}

/// The arguments of `list dependencies`: one `--revision` option or one
/// positional locator (or both), at least one of the two.
pub open spec fn spec_parse_deps(
    a: Seq<Seq<char>>,
    revision: Option<Seq<char>>,
    positional: Option<Seq<char>>,
) -> Option<ListCommandSpec>
    decreases a.len(),
{
    if a.len() == 0 {
        if revision is Some || positional is Some {
            Some(ListCommandSpec::Dependencies { revision, revision_positional: positional })
        } else {
            None
        }
    } else if a[0] == "--revision"@ {
        if a.len() < 2 || revision is Some {
            None
        } else {
            spec_parse_deps(a.skip(2), Some(a[1]), positional)
        }
    } else {
        if positional is Some {
            None
        } else {
            spec_parse_deps(a.skip(1), revision, Some(a[0]))
        }
    }
}

/// The arguments of `list revisions`: one positional project locator,
/// with optional `--page N` / `--count N` around it.
pub open spec fn spec_parse_revisions(
    a: Seq<Seq<char>>,
    project: Option<Seq<char>>,
    page: Option<u32>,
    count: Option<u32>,
) -> Option<ListCommandSpec>
    decreases a.len(),
{
    if a.len() == 0 {
        match project {
            Some(p) => Some(ListCommandSpec::Revisions { project: p, page, count }),
            None => None,
        }
    } else if a[0] == "--page"@ {
        if a.len() < 2 || page is Some {
            None
        } else {
            match parse_u32_spec(a[1]) {
                Some(n) => spec_parse_revisions(a.skip(2), project, Some(n), count),
                None => None,
            }
        }
    } else if a[0] == "--count"@ {
        if a.len() < 2 || count is Some {
            None
        } else {
            match parse_u32_spec(a[1]) {
                Some(n) => spec_parse_revisions(a.skip(2), project, page, Some(n)),
                None => None,
            }
        }
    } else {
        if project is Some {
            None
        } else {
            spec_parse_revisions(a.skip(1), Some(a[0]), page, count)
        }
    }
}

/// A `list` subcommand.
pub open spec fn spec_parse_list(a: Seq<Seq<char>>) -> Option<ListCommandSpec> {
    if a.len() == 0 {
        None
    } else if a[0] == "projects"@ || a[0] == "project"@ {
        match spec_page_count(a.skip(1), None, None) {
            Some((p, c)) => Some(ListCommandSpec::Projects { page: p, count: c }),
            None => None,
        }
    } else if a[0] == "issues"@ || a[0] == "issue"@ {
        match spec_page_count(a.skip(1), None, None) {
            Some((p, c)) => Some(ListCommandSpec::Issues { page: p, count: c }),
            None => None,
        }
    } else if a[0] == "dependencies"@ || a[0] == "dependency"@ {
        spec_parse_deps(a.skip(1), None, None)
    } else if a[0] == "revisions"@ || a[0] == "revision"@ {
        spec_parse_revisions(a.skip(1), None, None, None)
    } else {
        None
    }
}

/// The trailing options of `update`: `--title`, `--description` and
/// `--public`, each at most once, in any order.
pub open spec fn spec_update_flags(
    a: Seq<Seq<char>>,
    entity: Entity,
    locator: Seq<char>,
    title: Option<Seq<char>>,
    description: Option<Seq<char>>,
    public: Option<bool>,
) -> Option<CommandSpec>
    decreases a.len(),
{
    if a.len() == 0 {
        Some(CommandSpec::Update { entity, locator, title, description, public })
    } else if a[0] == "--title"@ {
        if a.len() < 2 || title is Some {
            None
        } else {
            spec_update_flags(a.skip(2), entity, locator, Some(a[1]), description, public)
        }
    } else if a[0] == "--description"@ {
        if a.len() < 2 || description is Some {
            None
        } else {
            spec_update_flags(a.skip(2), entity, locator, title, Some(a[1]), public)
        }
    } else if a[0] == "--public"@ {
        if a.len() < 2 || public is Some {
            None
        } else {
            match spec_parse_bool(a[1]) {
                Some(b) => spec_update_flags(a.skip(2), entity, locator, title, description, Some(b)),
                None => None,
            }
        }
    } else {
        None
    }
}

/// An `update` command: an entity word, a locator, then options.
pub open spec fn spec_parse_update(a: Seq<Seq<char>>) -> Option<CommandSpec> {
    if a.len() < 2 {
        None
    } else {
        match spec_entity(a[0]) {
            Some(ent) => spec_update_flags(a.skip(2), ent, a[1], None, None, None),
            None => None,
        }
    }
}

/// The `mcp` command: nothing, or the single switch `--verbose`.
pub open spec fn spec_parse_mcp(a: Seq<Seq<char>>) -> Option<CommandSpec> {
    if a.len() == 0 {
        Some(CommandSpec::Mcp { verbose: false })
    } else if a.len() == 1 && a[0] == "--verbose"@ {
        Some(CommandSpec::Mcp { verbose: true })
    } else {
        None
    }
}

/// A command: the first word chooses it, the rest are its arguments.
pub open spec fn spec_parse_command(core: Seq<Seq<char>>) -> Option<CommandSpec> {
    if core.len() == 0 {
        None
    } else if core[0] == "get"@ {
        match spec_parse_get(core.skip(1)) {
            Some(g) => Some(CommandSpec::Get(g)),
            None => None,
        }
    } else if core[0] == "list"@ {
        match spec_parse_list(core.skip(1)) {
            Some(l) => Some(CommandSpec::List(l)),
            None => None,
        }
    } else if core[0] == "update"@ {
        spec_parse_update(core.skip(1))
    } else if core[0] == "mcp"@ {
        spec_parse_mcp(core.skip(1))
    } else {
        None
    }
}

/// The whole command line: a program name, then the command, with the
/// global `--json` switch stripped from anywhere among the arguments.
pub open spec fn spec_parse_cli(argv: Seq<Seq<char>>) -> Option<CliSpec> {
    if argv.len() < 1 {
        None
    } else {
        let rest = argv.skip(1);
        match spec_parse_command(spec_strip_json(rest)) {
            Some(cmd) => Some(CliSpec { json: spec_has_json(rest), command: cmd }),
            None => None,
        }
    }
}

/// Build a parse error with the given message.
fn cli_error(message: &str) -> (r: CliError) {
    CliError { message: message.to_owned() }
}

/// Parse the `--page`/`--count` tail of a listing, from position `i`.
fn parse_page_count_from(args: &Vec<String>, i: usize, page: Option<u32>, count: Option<u32>) -> (r:
    Result<(Option<u32>, Option<u32>), CliError>)
    requires
        i <= args@.len(),
    ensures
        match spec_page_count(arg_views(args@).skip(i as int), page, count) {
            Some(v) => r matches Ok(x) && x == v,
            None => r is Err,
        },
    decreases args@.len() - i,
{
    let ghost av = arg_views(args@);
    if i == args.len() {
        proof {
            assert(av.skip(i as int) =~= Seq::<Seq<char>>::empty());
        }
        return Ok((page, count));
    }
    proof {
        assert(av.skip(i as int)[0] == args@[i as int]@);
    }
    if str_eq(args[i].as_str(), "--page") {
        if i + 1 >= args.len() || page.is_some() {
            return Err(cli_error("the page option needs one numeric value"));
        }
        proof {
            assert(av.skip(i as int)[1] == args@[i + 1]@);
            assert(av.skip(i as int).skip(2) =~= av.skip(i + 2));
        }
        match parse_u32(args[i + 1].as_str()) {
            Some(n) => parse_page_count_from(args, i + 2, Some(n), count),
            None => Err(cli_error("the page option needs one numeric value")),
        }
    } else if str_eq(args[i].as_str(), "--count") {
        if i + 1 >= args.len() || count.is_some() {
            return Err(cli_error("the count option needs one numeric value"));
        }
        proof {
            assert(av.skip(i as int)[1] == args@[i + 1]@);
            assert(av.skip(i as int).skip(2) =~= av.skip(i + 2));
        }
        match parse_u32(args[i + 1].as_str()) {
            Some(n) => parse_page_count_from(args, i + 2, page, Some(n)),
            None => Err(cli_error("the count option needs one numeric value")),
        }
    } else {
        Err(cli_error("unexpected argument"))
    }
}

/// Parse the arguments of `list dependencies`, from position `i`.
fn parse_deps_from(
    args: &Vec<String>,
    i: usize,
    revision: Option<String>,
    positional: Option<String>,
) -> (r: Result<ListCommand, CliError>)
    requires
        i <= args@.len(),
    ensures
        match spec_parse_deps(
            arg_views(args@).skip(i as int),
            match revision {
                Some(s) => Some(s@),
                None => None,
            },
            match positional {
                Some(s) => Some(s@),
                None => None,
            },
        ) {
            Some(v) => r matches Ok(x) && x@ == v,
            None => r is Err,
        },
    decreases args@.len() - i,
{
    let ghost av = arg_views(args@);
    if i == args.len() {
        proof {
            assert(av.skip(i as int) =~= Seq::<Seq<char>>::empty());
        }
        if revision.is_some() || positional.is_some() {
            return Ok(ListCommand::Dependencies { revision, revision_positional: positional });
        }
        return Err(cli_error("a revision locator is required"));
    }
    proof {
        assert(av.skip(i as int)[0] == args@[i as int]@);
    }
    if str_eq(args[i].as_str(), "--revision") {
        if i + 1 >= args.len() || revision.is_some() {
            return Err(cli_error("the revision option needs one locator value"));
        }
        proof {
            assert(av.skip(i as int)[1] == args@[i + 1]@);
            assert(av.skip(i as int).skip(2) =~= av.skip(i + 2));
        }
        parse_deps_from(args, i + 2, Some(args[i + 1].clone()), positional)
    } else {
        if positional.is_some() {
            return Err(cli_error("unexpected argument"));
        }
        proof {
            assert(av.skip(i as int).skip(1) =~= av.skip(i + 1));
        }
        parse_deps_from(args, i + 1, revision, Some(args[i].clone()))
    }
}

/// Parse the arguments of `list revisions`, from position `i`.
fn parse_revisions_from(
    args: &Vec<String>,
    i: usize,
    project: Option<String>,
    page: Option<u32>,
    count: Option<u32>,
) -> (r: Result<ListCommand, CliError>)
    requires
        i <= args@.len(),
    ensures
        match spec_parse_revisions(
            arg_views(args@).skip(i as int),
            match project {
                Some(s) => Some(s@),
                None => None,
            },
            page,
            count,
        ) {
            Some(v) => r matches Ok(x) && x@ == v,
            None => r is Err,
        },
    decreases args@.len() - i,
{
    let ghost av = arg_views(args@);
    if i == args.len() {
        proof {
            assert(av.skip(i as int) =~= Seq::<Seq<char>>::empty());
        }
        match project {
            Some(p) => {
                return Ok(ListCommand::Revisions { project: p, page, count });
            },
            None => {
                return Err(cli_error("a project locator is required"));
            },
        }
    }
    proof {
        assert(av.skip(i as int)[0] == args@[i as int]@);
    }
    if str_eq(args[i].as_str(), "--page") {
        if i + 1 >= args.len() || page.is_some() {
            return Err(cli_error("the page option needs one numeric value"));
        }
        proof {
            assert(av.skip(i as int)[1] == args@[i + 1]@);
            assert(av.skip(i as int).skip(2) =~= av.skip(i + 2));
        }
        match parse_u32(args[i + 1].as_str()) {
            Some(n) => parse_revisions_from(args, i + 2, project, Some(n), count),
            None => Err(cli_error("the page option needs one numeric value")),
        }
    } else if str_eq(args[i].as_str(), "--count") {
        if i + 1 >= args.len() || count.is_some() {
            return Err(cli_error("the count option needs one numeric value"));
        }
        proof {
            assert(av.skip(i as int)[1] == args@[i + 1]@);
            assert(av.skip(i as int).skip(2) =~= av.skip(i + 2));
        }
        match parse_u32(args[i + 1].as_str()) {
            Some(n) => parse_revisions_from(args, i + 2, project, page, Some(n)),
            None => Err(cli_error("the count option needs one numeric value")),
        }
    } else {
        if project.is_some() {
            return Err(cli_error("unexpected argument"));
        }
        proof {
            assert(av.skip(i as int).skip(1) =~= av.skip(i + 1));
        }
        parse_revisions_from(args, i + 1, Some(args[i].clone()), page, count)
    }
}

/// Parse the option tail of `update`, from position `i`.
fn parse_update_flags_from(
    args: &Vec<String>,
    i: usize,
    entity: Entity,
    locator: String,
    title: Option<String>,
    description: Option<String>,
    public: Option<bool>,
) -> (r: Result<Command, CliError>)
    requires
        i <= args@.len(),
    ensures
        match spec_update_flags(
            arg_views(args@).skip(i as int),
            entity,
            locator@,
            match title {
                Some(s) => Some(s@),
                None => None,
            },
            match description {
                Some(s) => Some(s@),
                None => None,
            },
            public,
        ) {
            Some(v) => r matches Ok(x) && x@ == v,
            None => r is Err,
        },
    decreases args@.len() - i,
{
    let ghost av = arg_views(args@);
    if i == args.len() {
        proof {
            assert(av.skip(i as int) =~= Seq::<Seq<char>>::empty());
        }
        return Ok(Command::Update { entity, locator, title, description, public });
    }
    proof {
        assert(av.skip(i as int)[0] == args@[i as int]@);
    }
    if str_eq(args[i].as_str(), "--title") {
        if i + 1 >= args.len() || title.is_some() {
            return Err(cli_error("the title option needs one value"));
        }
        proof {
            assert(av.skip(i as int)[1] == args@[i + 1]@);
            assert(av.skip(i as int).skip(2) =~= av.skip(i + 2));
        }
        parse_update_flags_from(
            args,
            i + 2,
            entity,
            locator,
            Some(args[i + 1].clone()),
            description,
            public,
        )
    } else if str_eq(args[i].as_str(), "--description") {
        if i + 1 >= args.len() || description.is_some() {
            return Err(cli_error("the description option needs one value"));
        }
        proof {
            assert(av.skip(i as int)[1] == args@[i + 1]@);
            assert(av.skip(i as int).skip(2) =~= av.skip(i + 2));
        }
        parse_update_flags_from(
            args,
            i + 2,
            entity,
            locator,
            title,
            Some(args[i + 1].clone()),
            public,
        )
    } else if str_eq(args[i].as_str(), "--public") {
        if i + 1 >= args.len() || public.is_some() {
            return Err(cli_error("the public option needs true or false"));
        }
        proof {
            assert(av.skip(i as int)[1] == args@[i + 1]@);
            assert(av.skip(i as int).skip(2) =~= av.skip(i + 2));
        }
        let b = if str_eq(args[i + 1].as_str(), "true") {
            Some(true)
        } else if str_eq(args[i + 1].as_str(), "false") {
            Some(false)
        } else {
            None
        };
        match b {
            Some(v) => parse_update_flags_from(
                args,
                i + 2,
                entity,
                locator,
                title,
                description,
                Some(v),
            ),
            None => Err(cli_error("the public option needs true or false")),
        }
    } else {
        Err(cli_error("unexpected argument"))
    }
}

/// Name an entity from one argument word.
fn parse_entity(w: &str) -> (r: Option<Entity>)
    ensures
        r == spec_entity(w@),
{
    if str_eq(w, "project") || str_eq(w, "projects") {
        Some(Entity::Project)
    } else if str_eq(w, "revision") || str_eq(w, "revisions") {
        Some(Entity::Revision)
    } else if str_eq(w, "dependency") || str_eq(w, "dependencies") {
        Some(Entity::Dependency)
    } else if str_eq(w, "issue") || str_eq(w, "issues") {
        Some(Entity::Issue)
    } else {
        None
    }
}

impl Cli {
    /// Parse a full argument list (program name first) against the
    /// grammar [`spec_parse_cli`]: the parse succeeds if and only if the
    /// grammar accepts the arguments, and then yields exactly the
    /// grammar's reading of them.
    pub fn parse_from(args: Vec<String>) -> (r: Result<Cli, CliError>)
        ensures
            match spec_parse_cli(arg_views(args@)) {
                Some(cs) => r matches Ok(c) && c@ == cs,
                None => r is Err,
            },
    {
        let ghost av = arg_views(args@);
        if args.len() == 0 {
            return Err(cli_error("missing program name"));
        }
        let ghost rest = av.skip(1);
        let mut core: Vec<String> = Vec::new();
        let mut json = false;
        let n = args.len();
        let mut i: usize = 1;
        proof {
            assert(rest.subrange(0, 0).filter(|a: Seq<char>| a != "--json"@) =~= arg_views(core@));
        }
        while i < n
            invariant
                1 <= i <= n,
                n == args@.len(),
                av == arg_views(args@),
                rest == av.skip(1),
                arg_views(core@) == rest.subrange(0, i - 1).filter(|a: Seq<char>| a != "--json"@),
                json == spec_has_json(rest.subrange(0, i - 1)),
            decreases n - i,
        {
            let ghost pre = rest.subrange(0, i - 1);
            proof {
                assert(rest[i - 1] == av[i as int]);
                assert(av[i as int] == args@[i as int]@);
                assert(rest.subrange(0, i as int) =~= pre.push(rest[i - 1]));
                pre.lemma_filter_push(rest[i - 1], |a: Seq<char>| a != "--json"@);
            }
            if str_eq(args[i].as_str(), "--json") {
                json = true;
                proof {
                    assert(rest.subrange(0, i as int)[i - 1] == "--json"@);
                }
            } else {
                core.push(args[i].clone());
                proof {
                    assert(arg_views(core@) =~= pre.filter(|a: Seq<char>| a != "--json"@).push(
                        args@[i as int]@,
                    ));
                    if spec_has_json(rest.subrange(0, i as int)) && !spec_has_json(pre) {
                        let w = choose|w: int|
                            0 <= w < rest.subrange(0, i as int).len() && rest.subrange(
                                0,
                                i as int,
                            )[w] == "--json"@;
                        assert(pre[w] == "--json"@);
                    }
                }
            }
            i = i + 1;
        }
        proof {
            assert(rest.subrange(0, n - 1) =~= rest);
        }
        let command = match Self::parse_command(&core) {
            Ok(c) => c,
            Err(e) => {
                return Err(e);
            },
        };
        Ok(Cli { json, command })
    }

    /// Parse the command words after the global switches are stripped.
    fn parse_command(core: &Vec<String>) -> (r: Result<Command, CliError>)
        ensures
            match spec_parse_command(arg_views(core@)) {
                Some(v) => r matches Ok(c) && c@ == v,
                None => r is Err,
            },
    {
        let ghost cv = arg_views(core@);
        if core.len() == 0 {
            return Err(cli_error("a command is required"));
        }
        proof {
            assert(cv[0] == core@[0]@);
        }
        if str_eq(core[0].as_str(), "get") {
            if core.len() != 3 {
                proof {
                    assert(spec_parse_get(cv.skip(1)) is None);
                }
                return Err(cli_error("get needs an entity and one id"));
            }
            proof {
                assert(cv.skip(1)[0] == core@[1]@);
                assert(cv.skip(1)[1] == core@[2]@);
            }
            if str_eq(core[1].as_str(), "project") || str_eq(core[1].as_str(), "projects") {
                Ok(Command::Get { command: GetCommand::Project { locator: core[2].clone() } })
            } else if str_eq(core[1].as_str(), "revision") || str_eq(core[1].as_str(), "revisions") {
                Ok(Command::Get { command: GetCommand::Revision { locator: core[2].clone() } })
            } else if str_eq(core[1].as_str(), "issue") || str_eq(core[1].as_str(), "issues") {
                match parse_u64(core[2].as_str()) {
                    Some(id) => Ok(Command::Get { command: GetCommand::Issue { id } }),
                    None => Err(cli_error("the issue id must be a number")),
                }
            } else {
                Err(cli_error("unknown entity for get"))
            }
        } else if str_eq(core[0].as_str(), "list") {
            match Self::parse_list(core) {
                Ok(l) => Ok(Command::List { command: l }),
                Err(e) => Err(e),
            }
        } else if str_eq(core[0].as_str(), "update") {
            if core.len() < 3 {
                proof {
                    assert(spec_parse_update(cv.skip(1)) is None);
                }
                return Err(cli_error("update needs an entity and a locator"));
            }
            proof {
                assert(cv.skip(1)[0] == core@[1]@);
                assert(cv.skip(1)[1] == core@[2]@);
                assert(cv.skip(1).skip(2) =~= cv.skip(3));
            }
            match parse_entity(core[1].as_str()) {
                Some(ent) => parse_update_flags_from(
                    core,
                    3,
                    ent,
                    core[2].clone(),
                    None,
                    None,
                    None,
                ),
                None => Err(cli_error("unknown entity for update")),
            }
        } else if str_eq(core[0].as_str(), "mcp") {
            proof {
                assert(cv.skip(1).len() == cv.len() - 1);
            }
            if core.len() == 1 {
                Ok(Command::Mcp { verbose: false })
            } else if core.len() == 2 {
                proof {
                    assert(cv.skip(1)[0] == core@[1]@);
                }
                if str_eq(core[1].as_str(), "--verbose") {
                    Ok(Command::Mcp { verbose: true })
                } else {
                    Err(cli_error("unknown option for mcp"))
                }
            } else {
                Err(cli_error("unknown option for mcp"))
            }
        } else {
            Err(cli_error("unknown command"))
        }
    }

    /// Parse a `list` subcommand from the full stripped argument list.
    fn parse_list(core: &Vec<String>) -> (r: Result<ListCommand, CliError>)
        requires
            core@.len() >= 1,
            core@[0]@ == "list"@,
        ensures
            match spec_parse_list(arg_views(core@).skip(1)) {
                Some(v) => r matches Ok(l) && l@ == v,
                None => r is Err,
            },
    {
        let ghost cv = arg_views(core@);
        let ghost a = cv.skip(1);
        if core.len() < 2 {
            proof {
                assert(a.len() == 0);
            }
            return Err(cli_error("list needs an entity"));
        }
        proof {
            assert(a[0] == core@[1]@);
            assert(a.skip(1) =~= cv.skip(2));
        }
        if str_eq(core[1].as_str(), "projects") || str_eq(core[1].as_str(), "project") {
            match parse_page_count_from(core, 2, None, None) {
                Ok((page, count)) => Ok(ListCommand::Projects { page, count }),
                Err(e) => Err(e),
            }
        } else if str_eq(core[1].as_str(), "issues") || str_eq(core[1].as_str(), "issue") {
            match parse_page_count_from(core, 2, None, None) {
                Ok((page, count)) => Ok(ListCommand::Issues { page, count }),
                Err(e) => Err(e),
            }
        } else if str_eq(core[1].as_str(), "dependencies") || str_eq(
            core[1].as_str(),
            "dependency",
        ) {
            parse_deps_from(core, 2, None, None)
        } else if str_eq(core[1].as_str(), "revisions") || str_eq(core[1].as_str(), "revision") {
            parse_revisions_from(core, 2, None, None, None)
        } else {
            Err(cli_error("unknown entity for list"))
        }
    }
}

} // verus!
