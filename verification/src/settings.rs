//! Tool settings: the resolved vault location, the conventional projects
//! and templates directories, and the defaults a new project starts
//! from. Loading and saving the settings file is glue outside the
//! library.

use vstd::prelude::*;
use crate::ext::{home_dir_string, push_char};

verus! {

/// The resolved configuration the tool runs with. Paths are plain
/// strings with `/` separators.
#[derive(Debug, Clone)]
pub struct Settings {
    pub obsidian_path: String,
    pub projects_dir: String,
    pub templates_dir: String,
    pub default_type: crate::cli::ProjectType,
    pub default_priority: crate::cli::Priority,
    pub auto_git_init: bool,
    pub editor: Option<String>,
    pub date_format: String,
    pub status_values: Vec<String>,
}

fn join_path(base: &str, rest: &str) -> (r: String)
    ensures
        r@ == base@ + seq!['/'] + rest@,
{
    let mut r = base.to_owned();
    push_char(&mut r, '/');
    r.append(rest);
    proof {
        assert(base@.push('/') =~= base@ + seq!['/']);
    }
    r
}

impl Default for Settings {
    /// The out-of-the-box settings: a vault under the home directory's
    /// documents, the conventional projects and templates directories,
    /// and the default category, priority and editor.
    fn default() -> (r: Settings)
        ensures
            (exists|prefix: Seq<char>| r.obsidian_path@ == prefix + "/Documents/Obsidian-Vault"@),
            r.projects_dir@ == "Projects"@,
            r.templates_dir@ == "Projects/_TEMPLATES"@,
            r.default_type == crate::cli::ProjectType::WebApp,
            r.default_priority == crate::cli::Priority::Medium,
            r.auto_git_init == true,
            r.editor matches Some(e) && e@ == "code"@,
            r.date_format@ == "%Y-%m-%d"@,
            r.status_values@.len() == 7,
            r.status_values@[0]@ == "idea"@,
            r.status_values@[1]@ == "planning"@,
            r.status_values@[2]@ == "development"@,
            r.status_values@[3]@ == "testing"@,
            r.status_values@[4]@ == "completed"@,
            r.status_values@[5]@ == "archived"@,
            r.status_values@[6]@ == "cancelled"@,
    {
        let home = match home_dir_string() {
            Some(h) => h,
            None => ".".to_owned(),
        };
        let mut obsidian_path = home;
        obsidian_path.append("/Documents/Obsidian-Vault");
        let mut status_values: Vec<String> = Vec::new();
        status_values.push("idea".to_owned());
        status_values.push("planning".to_owned());
        status_values.push("development".to_owned());
        status_values.push("testing".to_owned());
        status_values.push("completed".to_owned());
        status_values.push("archived".to_owned());
        status_values.push("cancelled".to_owned());
        Settings {
            obsidian_path,
            projects_dir: "Projects".to_owned(),
            templates_dir: "Projects/_TEMPLATES".to_owned(),
            default_type: crate::cli::ProjectType::WebApp,
            default_priority: crate::cli::Priority::Medium,
            auto_git_init: true,
            editor: Some("code".to_owned()),
            date_format: "%Y-%m-%d".to_owned(),
            status_values,
        }
    }
}

impl Settings {
    /// The projects directory under the vault.
    pub fn projects_path(&self) -> (r: String)
        ensures
            r@ == self.obsidian_path@ + seq!['/'] + self.projects_dir@,
    {
        join_path(self.obsidian_path.as_str(), self.projects_dir.as_str())
    }

    /// The templates directory under the vault.
    pub fn templates_path(&self) -> (r: String)
        ensures
            r@ == self.obsidian_path@ + seq!['/'] + self.templates_dir@,
    {
        join_path(self.obsidian_path.as_str(), self.templates_dir.as_str())
    }

    /// The directory a named template lives in.
    pub fn get_template_path(&self, template_name: &str) -> (r: String)
        ensures
            r@ == self.obsidian_path@ + seq!['/'] + self.templates_dir@ + seq!['/']
                + template_name@,
    {
        let base = self.templates_path();
        join_path(base.as_str(), template_name)
    }

    /// Points the settings at another vault.
    pub fn set_obsidian_path(&mut self, path: &str)
        ensures
            final(self).obsidian_path@ == path@,
            final(self).projects_dir == old(self).projects_dir,
            final(self).templates_dir == old(self).templates_dir,
            final(self).default_type == old(self).default_type,
            final(self).default_priority == old(self).default_priority,
            final(self).auto_git_init == old(self).auto_git_init,
            final(self).editor == old(self).editor,
            final(self).date_format == old(self).date_format,
            final(self).status_values == old(self).status_values,
    {
        self.obsidian_path = path.to_owned();
    }

    /// Sets the category a new project defaults to.
    pub fn set_default_type(&mut self, project_type: crate::cli::ProjectType)
        ensures
            final(self).default_type == project_type,
            final(self).obsidian_path == old(self).obsidian_path,
            final(self).default_priority == old(self).default_priority,
            final(self).auto_git_init == old(self).auto_git_init,
            final(self).editor == old(self).editor,
    {
        self.default_type = project_type;
    }

    /// Sets the priority a new project defaults to.
    pub fn set_default_priority(&mut self, priority: crate::cli::Priority)
        ensures
            final(self).default_priority == priority,
            final(self).obsidian_path == old(self).obsidian_path,
            final(self).default_type == old(self).default_type,
            final(self).auto_git_init == old(self).auto_git_init,
            final(self).editor == old(self).editor,
    {
        self.default_priority = priority;
    }

    /// Turns automatic repository initialisation on or off.
    pub fn set_auto_git_init(&mut self, enabled: bool)
        ensures
            final(self).auto_git_init == enabled,
            final(self).obsidian_path == old(self).obsidian_path,
            final(self).default_type == old(self).default_type,
            final(self).default_priority == old(self).default_priority,
            final(self).editor == old(self).editor,
    {
        self.auto_git_init = enabled;
    }

    /// Sets or clears the preferred editor.
    pub fn set_editor(&mut self, editor: Option<String>)
        ensures
            final(self).editor == editor,
            final(self).obsidian_path == old(self).obsidian_path,
            final(self).default_type == old(self).default_type,
            final(self).default_priority == old(self).default_priority,
            final(self).auto_git_init == old(self).auto_git_init,
    {
        self.editor = editor;
    }
}

} // verus!
