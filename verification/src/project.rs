//! The Project Record: the unit of state the engine manages, with its
//! construction, status updates, tag maintenance, and derived measures.

use vstd::prelude::*;
use crate::chars::{
    has_prefix, spec_lower_dash, spec_starts_with, to_lower_dash, vec_has_string, seq_has_str,
};
use crate::ext::{new_uuid, now_seconds};
use crate::status::{Priority, ProjectStatus, StatusEntry, spec_status_tag};

verus! {

/// Project category: a closed set of known kinds plus an open-ended
/// custom variant carrying the original token.
#[derive(Debug, Clone)]
pub enum ProjectType {
    WebApp,
    Tool,
    Content,
    Api,
    Custom(String),
}

impl PartialEq for ProjectType {
    fn eq(&self, other: &ProjectType) -> (r: bool) {
        match (self, other) {
            (ProjectType::WebApp, ProjectType::WebApp) => true,
            (ProjectType::Tool, ProjectType::Tool) => true,
            (ProjectType::Content, ProjectType::Content) => true,
            (ProjectType::Api, ProjectType::Api) => true,
            (ProjectType::Custom(a), ProjectType::Custom(b)) => crate::chars::str_eq(
                a.as_str(),
                b.as_str(),
            ),
            _ => false,
        }
    }
}

impl vstd::std_specs::cmp::PartialEqSpecImpl for ProjectType {
    open spec fn obeys_eq_spec() -> bool {
        true
    }

    open spec fn eq_spec(&self, other: &ProjectType) -> bool {
        match (self, other) {
            (ProjectType::WebApp, ProjectType::WebApp) => true,
            (ProjectType::Tool, ProjectType::Tool) => true,
            (ProjectType::Content, ProjectType::Content) => true,
            (ProjectType::Api, ProjectType::Api) => true,
            (ProjectType::Custom(a), ProjectType::Custom(b)) => a@ == b@,
            _ => false,
        }
    }
}

/// Display name of a category, as it appears in listings and in
/// conventional directory names.
pub open spec fn spec_type_label(t: ProjectType) -> Seq<char> {
    match t {
        ProjectType::WebApp => "Web-App"@,
        ProjectType::Tool => "Tool"@,
        ProjectType::Content => "Content"@,
        ProjectType::Api => "API"@,
        ProjectType::Custom(name) => name@,
    }
}

impl ProjectType {
    /// Display name of the category.
    pub fn label(&self) -> (r: String)
        ensures
            r@ == spec_type_label(*self),
    {
        match self {
            ProjectType::WebApp => "Web-App".to_owned(),
            ProjectType::Tool => "Tool".to_owned(),
            ProjectType::Content => "Content".to_owned(),
            ProjectType::Api => "API".to_owned(),
            ProjectType::Custom(name) => name.clone(),
        }
    }
}

/// The core category a command-line category maps to.
pub open spec fn spec_type_of_cli(t: crate::cli::ProjectType) -> ProjectType {
    match t {
        crate::cli::ProjectType::WebApp => ProjectType::WebApp,
        crate::cli::ProjectType::Tool => ProjectType::Tool,
        crate::cli::ProjectType::Content => ProjectType::Content,
        crate::cli::ProjectType::Api => ProjectType::Api,
    }
}

impl core::convert::From<crate::cli::ProjectType> for ProjectType {
    fn from(t: crate::cli::ProjectType) -> (r: Self) {
        match t {
            crate::cli::ProjectType::WebApp => ProjectType::WebApp,
            crate::cli::ProjectType::Tool => ProjectType::Tool,
            crate::cli::ProjectType::Content => ProjectType::Content,
            crate::cli::ProjectType::Api => ProjectType::Api,
        }
    }
}

impl vstd::std_specs::convert::FromSpecImpl<crate::cli::ProjectType> for ProjectType {
    open spec fn obeys_from_spec() -> bool {
        true
    }

    open spec fn from_spec(t: crate::cli::ProjectType) -> Self {
        spec_type_of_cli(t)
    }
}

/// The lowercase tag recorded for a command-line category.
pub open spec fn spec_cli_type_tag(t: crate::cli::ProjectType) -> Seq<char> {
    match t {
        crate::cli::ProjectType::WebApp => "webapp"@,
        crate::cli::ProjectType::Tool => "tool"@,
        crate::cli::ProjectType::Content => "content"@,
        crate::cli::ProjectType::Api => "api"@,
    }
}

/// The lowercase tag recorded for a command-line priority.
pub open spec fn spec_cli_priority_tag(p: crate::cli::Priority) -> Seq<char> {
    match p {
        crate::cli::Priority::Low => "priority-low"@,
        crate::cli::Priority::Medium => "priority-medium"@,
        crate::cli::Priority::High => "priority-high"@,
    }
}

/// The core priority a command-line priority maps to.
pub open spec fn spec_priority_of_cli(p: crate::cli::Priority) -> Priority {
    match p {
        crate::cli::Priority::Low => Priority::Low,
        crate::cli::Priority::Medium => Priority::Medium,
        crate::cli::Priority::High => Priority::High,
    }
}

/// The structured representation of one managed project directory.
/// Timestamps are Unix seconds (UTC); `path` is positional state, set only
/// when the record was loaded from or is bound for a directory on disk.
#[derive(Debug, Clone)]
pub struct Project {
    pub id: String,
    pub name: String,
    pub project_type: ProjectType,
    pub status: ProjectStatus,
    pub priority: Priority,
    pub created: i64,
    pub updated: i64,
    pub description: Option<String>,
    pub tags: Vec<String>,
    pub technologies: Vec<String>,
    pub status_history: Vec<StatusEntry>,
    pub path: Option<String>,
}

/// The tag list with every status-derived tag removed, order kept.
pub open spec fn spec_strip_status_tags(tags: Seq<String>) -> Seq<String>
    decreases tags.len(),
{
    if tags.len() == 0 {
        Seq::empty()
    } else if spec_starts_with(tags[0]@, "status-"@) {
        spec_strip_status_tags(tags.drop_first())
    } else {
        seq![tags[0]] + spec_strip_status_tags(tags.drop_first())
    }
}

impl Project {
    /// Well-formedness: the status log is never empty and its last line
    /// always carries the record's current status.
    pub open spec fn wf(&self) -> bool {
        &&& self.status_history@.len() > 0
        &&& self.status_history@.last().status == self.status
    }

    /// Builds a fresh in-memory record: a new identifier, status Idea, a
    /// one-line "created" history, and the seed tags derived from the
    /// category and the priority.
    pub fn new(
        name: String,
        project_type: crate::cli::ProjectType,
        priority: crate::cli::Priority,
        description: Option<String>,
    ) -> (r: Project)
        ensures
            r.wf(),
            r.id@.len() == 36,
            r.name == name,
            r.project_type == spec_type_of_cli(project_type),
            r.status == ProjectStatus::Idea,
            r.priority == spec_priority_of_cli(priority),
            r.created == r.updated,
            r.description == description,
            r.technologies@.len() == 0,
            r.status_history@.len() == 1,
            r.status_history@[0].status == ProjectStatus::Idea,
            r.status_history@[0].timestamp == r.created,
            r.status_history@[0].note matches Some(n) && n@ == "Project created"@,
            r.tags@.len() == 3,
            r.tags@[0]@ == "project"@,
            r.tags@[1]@ == spec_cli_type_tag(project_type),
            r.tags@[2]@ == spec_cli_priority_tag(priority),
            r.path is None,
    {
        let now = now_seconds();
        let id = new_uuid();

        let core_type: ProjectType = match project_type {
            crate::cli::ProjectType::WebApp => ProjectType::WebApp,
            crate::cli::ProjectType::Tool => ProjectType::Tool,
            crate::cli::ProjectType::Content => ProjectType::Content,
            crate::cli::ProjectType::Api => ProjectType::Api,
        };
        let core_priority: Priority = match priority {
            crate::cli::Priority::Low => Priority::Low,
            crate::cli::Priority::Medium => Priority::Medium,
            crate::cli::Priority::High => Priority::High,
        };

        let status = ProjectStatus::Idea;
        let first_entry = StatusEntry {
            status,
            timestamp: now,
            note: Some("Project created".to_owned()),
        };
        let mut status_history: Vec<StatusEntry> = Vec::new();
        status_history.push(first_entry);

        let mut tags: Vec<String> = Vec::new();
        tags.push("project".to_owned());
        let type_tag: String = match project_type {
            crate::cli::ProjectType::WebApp => "webapp".to_owned(),
            crate::cli::ProjectType::Tool => "tool".to_owned(),
            crate::cli::ProjectType::Content => "content".to_owned(),
            crate::cli::ProjectType::Api => "api".to_owned(),
        };
        tags.push(type_tag);
        let priority_tag: String = match priority {
            crate::cli::Priority::Low => "priority-low".to_owned(),
            crate::cli::Priority::Medium => "priority-medium".to_owned(),
            crate::cli::Priority::High => "priority-high".to_owned(),
        };
        tags.push(priority_tag);

        Project {
            id,
            name,
            project_type: core_type,
            status,
            priority: core_priority,
            created: now,
            updated: now,
            description,
            tags,
            technologies: Vec::new(),
            status_history,
            path: None,
        }
    }

    /// Sets the status, refreshes `updated` (never backwards), appends one
    /// history line, and replaces the status-derived tag: every old
    /// `status-` tag is stripped and one fresh tag appended.
    pub fn update_status(&mut self, new_status: ProjectStatus, note: Option<String>)
        ensures
            final(self).wf(),
            final(self).status == new_status,
            final(self).updated >= old(self).updated,
            final(self).status_history@ == old(self).status_history@.push(
                (StatusEntry {
                    status: new_status,
                    timestamp: final(self).updated,
                    note,
                }),
            ),
            final(self).tags@.len() == spec_strip_status_tags(old(self).tags@).len() + 1,
            final(self).tags@.drop_last() == spec_strip_status_tags(old(self).tags@),
            final(self).tags@.last()@ == spec_status_tag(new_status),
            final(self).id == old(self).id,
            final(self).name == old(self).name,
            final(self).project_type == old(self).project_type,
            final(self).priority == old(self).priority,
            final(self).created == old(self).created,
            final(self).description == old(self).description,
            final(self).technologies == old(self).technologies,
            final(self).path == old(self).path,
    {
        self.status = new_status;
        let now = now_seconds();
        if now >= self.updated {
            self.updated = now;
        }
        let stamp = self.updated;
        let entry = StatusEntry { status: new_status, timestamp: stamp, note };
        self.status_history.push(entry);

        let n = self.tags.len();
        let mut kept: Vec<String> = Vec::new();
        let mut i: usize = 0;
        proof {
            assert(self.tags@.skip(0) =~= self.tags@);
            assert(Seq::<String>::empty() + spec_strip_status_tags(self.tags@)
                =~= spec_strip_status_tags(self.tags@));
        }
        while i < n
            invariant
                n == self.tags@.len(),
                i <= n,
                spec_strip_status_tags(self.tags@) == kept@ + spec_strip_status_tags(
                    self.tags@.skip(i as int),
                ),
            decreases n - i,
        {
            let t = &self.tags[i];
            proof {
                assert(self.tags@.skip(i as int).drop_first() =~= self.tags@.skip(i as int + 1));
                assert(self.tags@.skip(i as int)[0] == self.tags@[i as int]);
            }
            if !has_prefix(t.as_str(), "status-") {
                kept.push(t.clone());
                proof {
                    assert(kept@ =~= kept@.drop_last() + seq![self.tags@[i as int]]);
                    assert(kept@.drop_last() + (seq![self.tags@[i as int]]
                        + spec_strip_status_tags(self.tags@.skip(i as int + 1))) =~= kept@
                        + spec_strip_status_tags(self.tags@.skip(i as int + 1)));
                }
            }
            i = i + 1;
        }
        proof {
            assert(self.tags@.skip(n as int) =~= Seq::<String>::empty());
            assert(kept@ + Seq::<String>::empty() =~= kept@);
        }
        kept.push(self.status.tag());
        self.tags = kept;
        proof {
            assert(self.tags@.drop_last() =~= spec_strip_status_tags(old(self).tags@));
        }
    }

    /// Records a technology label, once, and mirrors it as a lowercase
    /// dashed tag if that tag is not already present.
    pub fn add_technology(&mut self, tech: String)
        ensures
            seq_has_str(old(self).technologies@, tech@) ==> *final(self) == *old(self),
            !seq_has_str(old(self).technologies@, tech@) ==> {
                &&& final(self).technologies@ == old(self).technologies@.push(tech)
                &&& (seq_has_str(old(self).tags@, spec_lower_dash(tech@)) ==> final(self).tags
                    == old(self).tags)
                &&& (!seq_has_str(old(self).tags@, spec_lower_dash(tech@)) ==> {
                    &&& final(self).tags@.len() == old(self).tags@.len() + 1
                    &&& final(self).tags@.drop_last() == old(self).tags@
                    &&& final(self).tags@.last()@ == spec_lower_dash(tech@)
                })
            },
            final(self).status == old(self).status,
            final(self).status_history == old(self).status_history,
            final(self).id == old(self).id,
            final(self).name == old(self).name,
            final(self).updated == old(self).updated,
    {
        if !vec_has_string(&self.technologies, tech.as_str()) {
            let tag = to_lower_dash(tech.as_str());
            self.technologies.push(tech);
            if !vec_has_string(&self.tags, tag.as_str()) {
                self.tags.push(tag);
            }
        }
    }

    /// Records a tag, once.
    pub fn add_tag(&mut self, tag: String)
        ensures
            seq_has_str(old(self).tags@, tag@) ==> *final(self) == *old(self),
            !seq_has_str(old(self).tags@, tag@) ==> final(self).tags@ == old(self).tags@.push(tag)
                && final(self).technologies == old(self).technologies && final(self).status == old(
                self,
            ).status && final(self).status_history == old(self).status_history,
    {
        if !vec_has_string(&self.tags, tag.as_str()) {
            self.tags.push(tag);
        }
    }

    /// The design-policy progress mapping, in whole percent.
    pub fn get_progress_percentage(&self) -> (r: u32)
        ensures
            r == spec_progress(self.status),
    {
        match self.status {
            ProjectStatus::Idea => 10,
            ProjectStatus::Planning => 25,
            ProjectStatus::Development => 60,
            ProjectStatus::Testing => 85,
            ProjectStatus::Completed => 100,
            ProjectStatus::Archived => 100,
            ProjectStatus::Cancelled => 0,
        }
    }

    /// A record is active in the three mid-pipeline states.
    pub fn is_active(&self) -> (r: bool)
        ensures
            r == (self.status == ProjectStatus::Planning || self.status
                == ProjectStatus::Development || self.status == ProjectStatus::Testing),
    {
        matches!(
            self.status,
            ProjectStatus::Planning | ProjectStatus::Development | ProjectStatus::Testing
        )
    }

    /// Whole days elapsed since creation, measured against the clock now.
    pub fn days_since_creation(&self) -> (r: i64)
        ensures
            exists|now: int| r == spec_days_between(now, self.created as int),
    {
        let now = now_seconds();
        days_between(now, self.created)
    }

    /// Whole days elapsed since the last update, measured against the
    /// clock now.
    pub fn days_since_update(&self) -> (r: i64)
        ensures
            exists|now: int| r == spec_days_between(now, self.updated as int),
    {
        let now = now_seconds();
        days_between(now, self.updated)
    }
}

/// The design-policy progress mapping.
pub open spec fn spec_progress(s: ProjectStatus) -> int {
    match s {
        ProjectStatus::Idea => 10,
        ProjectStatus::Planning => 25,
        ProjectStatus::Development => 60,
        ProjectStatus::Testing => 85,
        ProjectStatus::Completed => 100,
        ProjectStatus::Archived => 100,
        ProjectStatus::Cancelled => 0,
    }
}

/// Whole days from `then` to `now`, truncated toward zero.
pub open spec fn spec_days_between(now: int, then: int) -> int {
    if now >= then {
        (now - then) / 86400
    } else {
        -((then - now) / 86400)
    }
}

/// Whole days from `then` to `now` in Unix seconds, truncated toward zero.
pub fn days_between(now: i64, then: i64) -> (r: i64)
    ensures
        r == spec_days_between(now as int, then as int),
{
    if now >= then {
        let diff: u128 = (now as i128 - then as i128) as u128;
        let days: u128 = diff / 86400;
        days as i64
    } else {
        let diff: u128 = (then as i128 - now as i128) as u128;
        let days: u128 = diff / 86400;
        -(days as i64)
    }
}

} // verus!
