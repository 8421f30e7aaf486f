//! The command-line data model: the commands the tool understands and the
//! closed argument enumerations, as plain data. Argument parsing itself is
//! glue outside the library.

use vstd::prelude::*;

verus! {

/// Project categories selectable on the command line (no open-ended
/// custom category here; that exists only in the core record model).
#[derive(Clone, Copy, Debug, PartialEq, Eq, Structural)]
pub enum ProjectType {
    WebApp,
    Tool,
    Content,
    Api,
}

/// Status values selectable on the command line.
#[derive(Clone, Copy, Debug, PartialEq, Eq, Structural)]
pub enum ProjectStatus {
    Idea,
    Planning,
    Development,
    Testing,
    Completed,
    Archived,
    Cancelled,
}

/// Priorities selectable on the command line.
#[derive(Clone, Copy, Debug, PartialEq, Eq, Structural)]
pub enum Priority {
    Low,
    Medium,
    High,
}

/// Fields a listing can be sorted by.
#[derive(Clone, Copy, Debug, PartialEq, Eq, Structural)]
pub enum SortField {
    Name,
    Date,
    Updated,
    Status,
    Priority,
    Type,
}

/// Output renderings of a listing.
#[derive(Clone, Copy, Debug, PartialEq, Eq, Structural)]
pub enum OutputFormat {
    Table,
    Json,
    Yaml,
}

/// One invocation of the tool: a command plus the global flags.
pub struct Cli {
    pub command: Commands,
    pub verbose: bool,
    pub quiet: bool,
    pub config: Option<String>,
    pub obsidian_path: Option<String>,
    pub dry_run: bool,
    pub no_color: bool,
}

/// The commands the tool understands, with their arguments.
pub enum Commands {
    New {
        name: Option<String>,
        project_type: Option<ProjectType>,
        priority: Option<Priority>,
        description: Option<String>,
        template: Option<String>,
        no_git: bool,
        interactive: bool,
    },
    List {
        status: Option<ProjectStatus>,
        project_type: Option<ProjectType>,
        priority: Option<Priority>,
        sort: SortField,
        format: OutputFormat,
    },
    Status {
        project: String,
        set_status: Option<ProjectStatus>,
        note: Option<String>,
        log: bool,
    },
    Info {
        project: String,
    },
    Template {
        subcommand: TemplateCommand,
    },
    Migrate {
        source: String,
    },
    Config {
        key: Option<String>,
        value: Option<String>,
    },
    Stats,
}

/// The template-management subcommands.
pub enum TemplateCommand {
    List,
    Add { name: String, path: String },
    Edit { name: String },
    Remove { name: String },
}

} // verus!
