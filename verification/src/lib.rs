//! Management of project directories in a notes vault: discovering and
//! reconstructing project records from directory names, front matter and
//! explicit metadata; the status model with its progression and
//! transition rules; and the template substitution engine that rewrites
//! `{{token}}` placeholders from a per-project variable table.
//!
//! Filesystem walks, console rendering and serialization stay outside;
//! the library takes plain values and makes every decision about them.

use vstd::prelude::*;

pub mod chars;
pub mod cli;
pub mod datefmt;
pub mod discover;
pub mod ext;
pub mod project;
pub mod settings;
pub mod status;
pub mod template;

verus! {

} // verus!
