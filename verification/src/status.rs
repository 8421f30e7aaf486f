//! Status model: the fixed status enumeration, its forward progression,
//! the transition-validity predicate and the progress-percentage mapping.

use vstd::prelude::*;

verus! {

/// The fixed 7-value status enumeration of a project record.
#[derive(Clone, Copy, Debug, PartialEq, Eq, Structural)]
pub enum ProjectStatus {
    Idea,
    Planning,
    Development,
    Testing,
    Completed,
    Archived,
    Cancelled,
}

/// Priority of a project record.
#[derive(Clone, Copy, Debug, PartialEq, Eq, Structural)]
pub enum Priority {
    Low,
    Medium,
    High,
}

/// The five "active pipeline" states in their canonical forward order.
pub open spec fn spec_status_progression() -> Seq<ProjectStatus> {
    seq![
        ProjectStatus::Idea,
        ProjectStatus::Planning,
        ProjectStatus::Development,
        ProjectStatus::Testing,
        ProjectStatus::Completed,
    ]
}

/// Returns the five forward-pipeline states, in order.
pub fn get_status_progression() -> (r: Vec<ProjectStatus>)
    ensures
        r@ == spec_status_progression(),
{
    let r = vec![
        ProjectStatus::Idea,
        ProjectStatus::Planning,
        ProjectStatus::Development,
        ProjectStatus::Testing,
        ProjectStatus::Completed,
    ];
    assert(r@ =~= spec_status_progression());
    r
}

pub open spec fn spec_next_suggested_status(current: ProjectStatus) -> Option<ProjectStatus> {
    match current {
        ProjectStatus::Idea => Some(ProjectStatus::Planning),
        ProjectStatus::Planning => Some(ProjectStatus::Development),
        ProjectStatus::Development => Some(ProjectStatus::Testing),
        ProjectStatus::Testing => Some(ProjectStatus::Completed),
        ProjectStatus::Completed => None,
        ProjectStatus::Archived => None,
        ProjectStatus::Cancelled => None,
    }
}

/// Simple forward map over the five active states; the terminal and
/// absorbing states have no suggested successor.
pub fn get_next_suggested_status(current: &ProjectStatus) -> (r: Option<ProjectStatus>)
    ensures
        r == spec_next_suggested_status(*current),
{
    match current {
        ProjectStatus::Idea => Some(ProjectStatus::Planning),
        ProjectStatus::Planning => Some(ProjectStatus::Development),
        ProjectStatus::Development => Some(ProjectStatus::Testing),
        ProjectStatus::Testing => Some(ProjectStatus::Completed),
        ProjectStatus::Completed => None,
        ProjectStatus::Archived => None,
        ProjectStatus::Cancelled => None,
    }
}

pub open spec fn spec_is_valid_transition(from: ProjectStatus, to: ProjectStatus) -> bool {
    !(from == ProjectStatus::Completed && (to == ProjectStatus::Idea || to
        == ProjectStatus::Planning || to == ProjectStatus::Development || to
        == ProjectStatus::Testing))
}

/// Every transition is permitted except moving from Completed back into
/// one of the four pre-completion pipeline states; Completed may still be
/// archived or cancelled.
pub fn is_valid_transition(from: &ProjectStatus, to: &ProjectStatus) -> (r: bool)
    ensures
        r == spec_is_valid_transition(*from, *to),
{
    !(matches!((from, to),
        (ProjectStatus::Completed, ProjectStatus::Idea) |
        (ProjectStatus::Completed, ProjectStatus::Planning) |
        (ProjectStatus::Completed, ProjectStatus::Development) |
        (ProjectStatus::Completed, ProjectStatus::Testing)))
}

/// One line of a record's append-only status log.
#[derive(Debug, Clone)]
pub struct StatusEntry {
    pub status: ProjectStatus,
    pub timestamp: i64,
    pub note: Option<String>,
}

/// Builds a history line stamped with the current wall-clock time.
pub fn create_status_entry(status: ProjectStatus, note: Option<String>) -> (r: StatusEntry)
    ensures
        r.status == status,
        r.note == note,
{
    StatusEntry { status, timestamp: crate::ext::now_seconds(), note }
}

pub open spec fn spec_status_label(s: ProjectStatus) -> Seq<char> {
    match s {
        ProjectStatus::Idea => "Idea"@,
        ProjectStatus::Planning => "Planning"@,
        ProjectStatus::Development => "Development"@,
        ProjectStatus::Testing => "Testing"@,
        ProjectStatus::Completed => "Completed"@,
        ProjectStatus::Archived => "Archived"@,
        ProjectStatus::Cancelled => "Cancelled"@,
    }
}

pub open spec fn spec_priority_label(p: Priority) -> Seq<char> {
    match p {
        Priority::Low => "Low"@,
        Priority::Medium => "Medium"@,
        Priority::High => "High"@,
    }
}

/// The tag a status update stamps onto a record's tag list.
pub open spec fn spec_status_tag(s: ProjectStatus) -> Seq<char> {
    match s {
        ProjectStatus::Idea => "status-idea"@,
        ProjectStatus::Planning => "status-planning"@,
        ProjectStatus::Development => "status-development"@,
        ProjectStatus::Testing => "status-testing"@,
        ProjectStatus::Completed => "status-completed"@,
        ProjectStatus::Archived => "status-archived"@,
        ProjectStatus::Cancelled => "status-cancelled"@,
    }
}

impl ProjectStatus {
    /// Display name of the status.
    pub fn label(&self) -> (r: String)
        ensures
            r@ == spec_status_label(*self),
    {
        match self {
            ProjectStatus::Idea => "Idea".to_owned(),
            ProjectStatus::Planning => "Planning".to_owned(),
            ProjectStatus::Development => "Development".to_owned(),
            ProjectStatus::Testing => "Testing".to_owned(),
            ProjectStatus::Completed => "Completed".to_owned(),
            ProjectStatus::Archived => "Archived".to_owned(),
            ProjectStatus::Cancelled => "Cancelled".to_owned(),
        }
    }

    /// The tag stamped onto a record's tag list for this status.
    pub fn tag(&self) -> (r: String)
        ensures
            r@ == spec_status_tag(*self),
    {
        match self {
            ProjectStatus::Idea => "status-idea".to_owned(),
            ProjectStatus::Planning => "status-planning".to_owned(),
            ProjectStatus::Development => "status-development".to_owned(),
            ProjectStatus::Testing => "status-testing".to_owned(),
            ProjectStatus::Completed => "status-completed".to_owned(),
            ProjectStatus::Archived => "status-archived".to_owned(),
            ProjectStatus::Cancelled => "status-cancelled".to_owned(),
        }
    }
}

impl Priority {
    /// Display name of the priority.
    pub fn label(&self) -> (r: String)
        ensures
            r@ == spec_priority_label(*self),
    {
        match self {
            Priority::Low => "Low".to_owned(),
            Priority::Medium => "Medium".to_owned(),
            Priority::High => "High".to_owned(),
        }
    }
}

impl core::convert::From<crate::cli::ProjectStatus> for ProjectStatus {
    fn from(s: crate::cli::ProjectStatus) -> (r: Self) {
        match s {
            crate::cli::ProjectStatus::Idea => ProjectStatus::Idea,
            crate::cli::ProjectStatus::Planning => ProjectStatus::Planning,
            crate::cli::ProjectStatus::Development => ProjectStatus::Development,
            crate::cli::ProjectStatus::Testing => ProjectStatus::Testing,
            crate::cli::ProjectStatus::Completed => ProjectStatus::Completed,
            crate::cli::ProjectStatus::Archived => ProjectStatus::Archived,
            crate::cli::ProjectStatus::Cancelled => ProjectStatus::Cancelled,
        }
    }
}

impl vstd::std_specs::convert::FromSpecImpl<crate::cli::ProjectStatus> for ProjectStatus {
    open spec fn obeys_from_spec() -> bool {
        true
    }

    open spec fn from_spec(s: crate::cli::ProjectStatus) -> Self {
        match s {
            crate::cli::ProjectStatus::Idea => ProjectStatus::Idea,
            crate::cli::ProjectStatus::Planning => ProjectStatus::Planning,
            crate::cli::ProjectStatus::Development => ProjectStatus::Development,
            crate::cli::ProjectStatus::Testing => ProjectStatus::Testing,
            crate::cli::ProjectStatus::Completed => ProjectStatus::Completed,
            crate::cli::ProjectStatus::Archived => ProjectStatus::Archived,
            crate::cli::ProjectStatus::Cancelled => ProjectStatus::Cancelled,
        }
    }
}

impl core::convert::From<crate::cli::Priority> for Priority {
    fn from(p: crate::cli::Priority) -> (r: Self) {
        match p {
            crate::cli::Priority::Low => Priority::Low,
            crate::cli::Priority::Medium => Priority::Medium,
            crate::cli::Priority::High => Priority::High,
        }
    }
}

impl vstd::std_specs::convert::FromSpecImpl<crate::cli::Priority> for Priority {
    open spec fn obeys_from_spec() -> bool {
        true
    }

    open spec fn from_spec(p: crate::cli::Priority) -> Self {
        match p {
            crate::cli::Priority::Low => Priority::Low,
            crate::cli::Priority::Medium => Priority::Medium,
            crate::cli::Priority::High => Priority::High,
        }
    }
}

} // verus!
