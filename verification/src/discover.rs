//! Discovery & Reconciliation Engine: decoding conventional directory
//! names, reading overview front matter, reconstructing project records,
//! and the lookup and ordering rules layered on a scan's results.
//!
//! The filesystem walk itself happens outside the library; these
//! functions take the directory names, file contents and timestamps the
//! walk found and make every decision about them.

use vstd::prelude::*;
use crate::chars::{
    char_at_from, find_char_from, has_prefix, has_sub, lemma_char_at_from_props,
    lemma_lower_idempotent, spec_has_sub, spec_lower, spec_starts_with, spec_trim, spec_undash,
    str_eq, to_lower, to_undash, trim_str,
};
use crate::project::{Project, ProjectType, spec_type_label};
use crate::status::{Priority, ProjectStatus};

verus! {

broadcast use vstd::string::group_string_axioms;

/// The lowercased tokens the alias table recognises.
pub open spec fn spec_known_alias(lt: Seq<char>) -> bool {
    ||| lt == "web-app"@
    ||| lt == "webapp"@
    ||| lt == "tool"@
    ||| lt == "cli"@
    ||| lt == "content"@
    ||| lt == "article"@
    ||| lt == "api"@
    ||| lt == "backend"@
}

/// The category a type token decodes to: matched case-insensitively
/// against the alias table; an unknown token keeps its lowercased text
/// as a custom category.
pub open spec fn spec_type_matches(t: ProjectType, tok: Seq<char>) -> bool {
    let lt = spec_lower(tok);
    match t {
        ProjectType::WebApp => lt == "web-app"@ || lt == "webapp"@,
        ProjectType::Tool => lt == "tool"@ || lt == "cli"@,
        ProjectType::Content => lt == "content"@ || lt == "article"@,
        ProjectType::Api => lt == "api"@ || lt == "backend"@,
        ProjectType::Custom(name) => name@ == lt && !spec_known_alias(lt),
    }
}

/// Decodes one `<Type>` token of a directory name.
pub fn decode_type_token(token: &str) -> (r: ProjectType)
    ensures
        spec_type_matches(r, token@),
{
    let lt = to_lower(token);
    if str_eq(lt.as_str(), "web-app") || str_eq(lt.as_str(), "webapp") {
        ProjectType::WebApp
    } else if str_eq(lt.as_str(), "tool") || str_eq(lt.as_str(), "cli") {
        ProjectType::Tool
    } else if str_eq(lt.as_str(), "content") || str_eq(lt.as_str(), "article") {
        ProjectType::Content
    } else if str_eq(lt.as_str(), "api") || str_eq(lt.as_str(), "backend") {
        ProjectType::Api
    } else {
        ProjectType::Custom(lt)
    }
}

/// Decoding a token and re-encoding the category round-trips: the
/// category's own label decodes back to the same category. Known
/// aliases collapse to their canonical kind; an unknown token survives
/// as the text of its custom category.
pub proof fn lemma_type_token_round_trip(t: ProjectType, tok: Seq<char>)
    requires
        spec_type_matches(t, tok),
    ensures
        spec_type_matches(t, spec_type_label(t)),
{
    reveal_strlit("Web-App");
    reveal_strlit("web-app");
    reveal_strlit("Tool");
    reveal_strlit("tool");
    reveal_strlit("Content");
    reveal_strlit("content");
    reveal_strlit("API");
    reveal_strlit("api");
    match t {
        ProjectType::WebApp => {
            assert(spec_lower("Web-App"@) =~= "web-app"@);
        },
        ProjectType::Tool => {
            assert(spec_lower("Tool"@) =~= "tool"@);
        },
        ProjectType::Content => {
            assert(spec_lower("Content"@) =~= "content"@);
        },
        ProjectType::Api => {
            assert(spec_lower("API"@) =~= "api"@);
        },
        ProjectType::Custom(name) => {
            lemma_lower_idempotent(tok);
            assert(spec_lower(name@) == name@);
        },
    }
}

/// The `(type token, name part)` of a conventional `DATE_TYPE_NAME`
/// directory name: what stands between the first two underscores, and
/// everything after the second.
pub open spec fn spec_decoded_name(s: Seq<char>) -> Option<(Seq<char>, Seq<char>)> {
    match char_at_from(s, '_', 0) {
        Some(i1) => match char_at_from(s, '_', i1 + 1) {
            Some(i2) => Some((s.subrange(i1 + 1, i2), s.subrange(i2 + 1, s.len() as int))),
            None => None,
        },
        None => None,
    }
}

/// Decodes a conventional directory name into a display name and a
/// category: the date segment is dropped, the type token matched against
/// the alias table, and the remainder de-hyphenated. A name without two
/// underscores is taken whole, with an `Unknown` custom category.
pub fn decode_directory_name(dir_name: &str) -> (r: (String, ProjectType))
    ensures
        match spec_decoded_name(dir_name@) {
            Some(parts) => r.0@ == spec_undash(parts.1) && spec_type_matches(r.1, parts.0),
            None => r.0@ == dir_name@ && (r.1 matches ProjectType::Custom(u) && u@
                == "Unknown"@),
        },
{
    let n = dir_name.unicode_len();
    let first = find_char_from(dir_name, '_', 0);
    if let Some(i1) = first {
        proof {
            lemma_char_at_from_props(dir_name@, '_', 0);
        }
        let second = find_char_from(dir_name, '_', i1 + 1);
        if let Some(i2) = second {
            proof {
                lemma_char_at_from_props(dir_name@, '_', i1 as int + 1);
            }
            let tok = dir_name.substring_char(i1 + 1, i2);
            let rest = dir_name.substring_char(i2 + 1, n);
            let name = to_undash(rest);
            let t = decode_type_token(tok);
            return (name, t);
        }
    }
    (dir_name.to_owned(), ProjectType::Custom("Unknown".to_owned()))
}

/// The status a front-matter value decodes to; anything unrecognised
/// falls back to Idea.
pub open spec fn spec_parse_status(s: Seq<char>) -> ProjectStatus {
    let l = spec_lower(s);
    if l == "idea"@ {
        ProjectStatus::Idea
    } else if l == "planning"@ {
        ProjectStatus::Planning
    } else if l == "development"@ {
        ProjectStatus::Development
    } else if l == "testing"@ {
        ProjectStatus::Testing
    } else if l == "completed"@ {
        ProjectStatus::Completed
    } else if l == "archived"@ {
        ProjectStatus::Archived
    } else if l == "cancelled"@ {
        ProjectStatus::Cancelled
    } else {
        ProjectStatus::Idea
    }
}

/// Decodes a status value, case-insensitively.
pub fn parse_status(status_str: &str) -> (r: ProjectStatus)
    ensures
        r == spec_parse_status(status_str@),
{
    let l = to_lower(status_str);
    if str_eq(l.as_str(), "idea") {
        ProjectStatus::Idea
    } else if str_eq(l.as_str(), "planning") {
        ProjectStatus::Planning
    } else if str_eq(l.as_str(), "development") {
        ProjectStatus::Development
    } else if str_eq(l.as_str(), "testing") {
        ProjectStatus::Testing
    } else if str_eq(l.as_str(), "completed") {
        ProjectStatus::Completed
    } else if str_eq(l.as_str(), "archived") {
        ProjectStatus::Archived
    } else if str_eq(l.as_str(), "cancelled") {
        ProjectStatus::Cancelled
    } else {
        ProjectStatus::Idea
    }
}

/// The priority a front-matter value decodes to; anything unrecognised
/// falls back to Medium.
pub open spec fn spec_parse_priority(s: Seq<char>) -> Priority {
    let l = spec_lower(s);
    if l == "high"@ {
        Priority::High
    } else if l == "medium"@ {
        Priority::Medium
    } else if l == "low"@ {
        Priority::Low
    } else {
        Priority::Medium
    }
}

/// Decodes a priority value, case-insensitively.
pub fn parse_priority(priority_str: &str) -> (r: Priority)
    ensures
        r == spec_parse_priority(priority_str@),
{
    let l = to_lower(priority_str);
    if str_eq(l.as_str(), "high") {
        Priority::High
    } else if str_eq(l.as_str(), "medium") {
        Priority::Medium
    } else if str_eq(l.as_str(), "low") {
        Priority::Low
    } else {
        Priority::Medium
    }
}

/// Discovery considers an entry only if its name starts with neither
/// `_` (templates) nor `.` (hidden state).
pub open spec fn spec_include_dir(name: Seq<char>) -> bool {
    !(name.len() > 0 && (name[0] == '_' || name[0] == '.'))
}

/// Whether a directory entry takes part in discovery.
pub fn should_include_dir(name: &str) -> (r: bool)
    ensures
        r == spec_include_dir(name@),
{
    if name.unicode_len() == 0 {
        return true;
    }
    let c = name.get_char(0);
    c != '_' && c != '.'
}

/// The names of `names` that take part in discovery, in order.
pub open spec fn spec_included_dirs(names: Seq<String>) -> Seq<String>
    decreases names.len(),
{
    if names.len() == 0 {
        Seq::empty()
    } else if spec_include_dir(names[0]@) {
        seq![names[0]] + spec_included_dirs(names.drop_first())
    } else {
        spec_included_dirs(names.drop_first())
    }
}

/// Keeps the entries that take part in discovery, dropping template and
/// hidden names.
pub fn filter_project_dirs(names: &Vec<String>) -> (r: Vec<String>)
    ensures
        r@ == spec_included_dirs(names@),
{
    let n = names.len();
    let mut r: Vec<String> = Vec::new();
    let mut i: usize = 0;
    proof {
        assert(names@.skip(0) =~= names@);
        assert(Seq::<String>::empty() + spec_included_dirs(names@) =~= spec_included_dirs(
            names@,
        ));
    }
    while i < n
        invariant
            n == names@.len(),
            i <= n,
            spec_included_dirs(names@) == r@ + spec_included_dirs(names@.skip(i as int)),
        decreases n - i,
    {
        proof {
            assert(names@.skip(i as int).drop_first() =~= names@.skip(i as int + 1));
            assert(names@.skip(i as int)[0] == names@[i as int]);
        }
        if should_include_dir(names[i].as_str()) {
            r.push(names[i].clone());
            proof {
                assert(r@ =~= r@.drop_last() + seq![names@[i as int]]);
                assert(r@.drop_last() + (seq![names@[i as int]] + spec_included_dirs(
                    names@.skip(i as int + 1),
                )) =~= r@ + spec_included_dirs(names@.skip(i as int + 1)));
            }
        }
        i = i + 1;
    }
    proof {
        assert(names@.skip(n as int) =~= Seq::<String>::empty());
        assert(r@ + spec_included_dirs(Seq::<String>::empty()) =~= r@);
    }
    r
}

/// Index of the first record with exactly this identifier.
pub open spec fn first_id_match(projects: Seq<Project>, id: Seq<char>, i: int) -> Option<int>
    decreases projects.len() - i,
{
    if i < 0 || i >= projects.len() {
        None
    } else if projects[i].id@ == id {
        Some(i)
    } else {
        first_id_match(projects, id, i + 1)
    }
}

/// Index of the first record whose name matches exactly.
pub open spec fn first_exact_match(projects: Seq<Project>, name: Seq<char>, i: int) -> Option<
    int,
>
    decreases projects.len() - i,
{
    if i < 0 || i >= projects.len() {
        None
    } else if projects[i].name@ == name {
        Some(i)
    } else {
        first_exact_match(projects, name, i + 1)
    }
}

/// Index of the first record whose name matches ignoring case.
pub open spec fn first_ci_match(projects: Seq<Project>, name: Seq<char>, i: int) -> Option<int>
    decreases projects.len() - i,
{
    if i < 0 || i >= projects.len() {
        None
    } else if spec_lower(projects[i].name@) == spec_lower(name) {
        Some(i)
    } else {
        first_ci_match(projects, name, i + 1)
    }
}

/// Index of the first record whose lowercased name contains the
/// lowercased query.
pub open spec fn first_sub_match(projects: Seq<Project>, name: Seq<char>, i: int) -> Option<int>
    decreases projects.len() - i,
{
    if i < 0 || i >= projects.len() {
        None
    } else if spec_has_sub(spec_lower(projects[i].name@), spec_lower(name)) {
        Some(i)
    } else {
        first_sub_match(projects, name, i + 1)
    }
}

/// The record a name lookup finds: the first exact match, else the first
/// case-insensitive match, else the first substring match.
pub open spec fn spec_find_by_name(projects: Seq<Project>, name: Seq<char>) -> Option<int> {
    match first_exact_match(projects, name, 0) {
        Some(i) => Some(i),
        None => match first_ci_match(projects, name, 0) {
            Some(i) => Some(i),
            None => first_sub_match(projects, name, 0),
        },
    }
}

/// Scans a projects directory; the walk itself hands this type the names
/// and file contents it finds.
pub struct ProjectScanner {
    pub projects_path: String,
}

impl ProjectScanner {
    /// A scanner rooted at the given projects directory.
    pub fn new(projects_path: &str) -> (r: ProjectScanner)
        ensures
            r.projects_path@ == projects_path@,
    {
        ProjectScanner { projects_path: projects_path.to_owned() }
    }

    /// Finds a record by name among scanned projects: first an exact
    /// match, then a case-insensitive one, then case-insensitive
    /// substring containment; each tier takes the first record in scan
    /// order.
    pub fn find_project_by_name<'a>(&self, projects: &'a Vec<Project>, name: &str) -> (r: Option<
        &'a Project,
    >)
        ensures
            match r {
                Some(p) => spec_find_by_name(projects@, name@) matches Some(i) && *p
                    == projects@[i],
                None => spec_find_by_name(projects@, name@) is None,
            },
    {
        let n = projects.len();
        let mut i: usize = 0;
        while i < n
            invariant
                n == projects@.len(),
                i <= n,
                first_exact_match(projects@, name@, 0) == first_exact_match(
                    projects@,
                    name@,
                    i as int,
                ),
            decreases n - i,
        {
            if str_eq(projects[i].name.as_str(), name) {
                return Some(&projects[i]);
            }
            proof {
                assert(first_exact_match(projects@, name@, i as int) == first_exact_match(
                    projects@,
                    name@,
                    i as int + 1,
                ));
            }
            i = i + 1;
        }
        let low = to_lower(name);
        let mut i: usize = 0;
        while i < n
            invariant
                n == projects@.len(),
                i <= n,
                low@ == spec_lower(name@),
                first_exact_match(projects@, name@, 0) is None,
                first_ci_match(projects@, name@, 0) == first_ci_match(projects@, name@, i as int),
            decreases n - i,
        {
            let pl = to_lower(projects[i].name.as_str());
            if str_eq(pl.as_str(), low.as_str()) {
                return Some(&projects[i]);
            }
            proof {
                assert(first_ci_match(projects@, name@, i as int) == first_ci_match(
                    projects@,
                    name@,
                    i as int + 1,
                ));
            }
            i = i + 1;
        }
        let mut i: usize = 0;
        while i < n
            invariant
                n == projects@.len(),
                i <= n,
                low@ == spec_lower(name@),
                first_exact_match(projects@, name@, 0) is None,
                first_ci_match(projects@, name@, 0) is None,
                first_sub_match(projects@, name@, 0) == first_sub_match(
                    projects@,
                    name@,
                    i as int,
                ),
            decreases n - i,
        {
            let pl = to_lower(projects[i].name.as_str());
            if has_sub(pl.as_str(), low.as_str()) {
                return Some(&projects[i]);
            }
            proof {
                assert(first_sub_match(projects@, name@, i as int) == first_sub_match(
                    projects@,
                    name@,
                    i as int + 1,
                ));
            }
            i = i + 1;
        }
        None
    }

    /// Finds a record by identifier among scanned projects: exact match
    /// only.
    pub fn find_project_by_id<'a>(&self, projects: &'a Vec<Project>, id: &str) -> (r: Option<
        &'a Project,
    >)
        ensures
            match r {
                Some(p) => first_id_match(projects@, id@, 0) matches Some(i) && *p
                    == projects@[i],
                None => first_id_match(projects@, id@, 0) is None,
            },
    {
        let n = projects.len();
        let mut i: usize = 0;
        while i < n
            invariant
                n == projects@.len(),
                i <= n,
                first_id_match(projects@, id@, 0) == first_id_match(projects@, id@, i as int),
            decreases n - i,
        {
            if str_eq(projects[i].id.as_str(), id) {
                return Some(&projects[i]);
            }
            proof {
                assert(first_id_match(projects@, id@, i as int) == first_id_match(
                    projects@,
                    id@,
                    i as int + 1,
                ));
            }
            i = i + 1;
        }
        None
    }
}

/// Orders scanned records by `updated`, most recent first: the canonical
/// default ordering of a listing. The result holds exactly the records
/// given.
pub fn sort_projects_by_updated(projects: Vec<Project>) -> (r: Vec<Project>)
    ensures
        r@.len() == projects@.len(),
        r@.to_multiset() == projects@.to_multiset(),
        forall|i: int, j: int| 0 <= i < j < r@.len() ==> r@[i].updated >= r@[j].updated,
{
    broadcast use vstd::seq_lib::group_to_multiset_ensures;

    let ghost orig = projects@;
    let mut rest = projects;
    let mut r: Vec<Project> = Vec::new();
    while rest.len() > 0
        invariant
            r@.len() + rest@.len() == orig.len(),
            r@.to_multiset().add(rest@.to_multiset()) =~= orig.to_multiset(),
            forall|i: int, j: int| 0 <= i < j < r@.len() ==> r@[i].updated >= r@[j].updated,
            forall|i: int, j: int|
                0 <= i < r@.len() && 0 <= j < rest@.len() ==> r@[i].updated >= rest@[j].updated,
        decreases rest.len(),
    {
        let m = rest.len();
        let mut best: usize = 0;
        let mut k: usize = 1;
        while k < m
            invariant
                m == rest@.len(),
                best < m,
                k <= m,
                forall|j: int| 0 <= j < k ==> rest@[best as int].updated >= rest@[j].updated,
            decreases m - k,
        {
            if rest[k].updated > rest[best].updated {
                best = k;
            }
            k = k + 1;
        }
        let ghost old_rest = rest@;
        let ghost old_r = r@;
        let p = rest.remove(best);
        r.push(p);
        proof {
            broadcast use vstd::seq_lib::group_to_multiset_ensures;
            broadcast use vstd::multiset::group_multiset_axioms;

            assert(old_rest.remove(best as int).to_multiset() =~= old_rest.to_multiset().remove(
                old_rest[best as int],
            ));
            assert(old_r.push(old_rest[best as int]).to_multiset() =~= old_r.to_multiset().insert(
                old_rest[best as int],
            ));
            assert(old_rest.to_multiset().count(old_rest[best as int]) >= 1) by {
                assert(old_rest.contains(old_rest[best as int]));
            }
            assert(r@.to_multiset().add(rest@.to_multiset()) =~= orig.to_multiset());
            assert forall|j: int| 0 <= j < rest@.len() implies r@.last().updated
                >= rest@[j].updated by {
                if j < best {
                    assert(rest@[j] == old_rest[j]);
                } else {
                    assert(rest@[j] == old_rest[j + 1]);
                }
            }
        }
    }
    r
}


/// A surrounding pair of double quotes is stripped; anything else is
/// kept as it stands.
pub open spec fn spec_strip_quotes(v: Seq<char>) -> Seq<char> {
    if v.len() >= 2 && v[0] == '"' && v[v.len() - 1] == '"' {
        v.subrange(1, v.len() - 1)
    } else {
        v
    }
}

fn strip_quotes_str(v: &str) -> (r: String)
    ensures
        r@ == spec_strip_quotes(v@),
{
    let n = v.unicode_len();
    if n >= 2 && v.get_char(0) == '"' && v.get_char(n - 1) == '"' {
        v.substring_char(1, n - 1).to_owned()
    } else {
        v.to_owned()
    }
}

/// The front-matter fields as they accumulate line by line: description,
/// status and priority texts, the tag list, and whether a `tags:` block
/// list is open.
pub type FmFields = (Option<Seq<char>>, Option<Seq<char>>, Option<Seq<char>>, Seq<Seq<char>>, bool);

/// No fields seen yet.
pub open spec fn fm_init() -> FmFields {
    (None, None, None, Seq::empty(), false)
}

/// One line of the front-matter block applied to the accumulated fields:
/// a blank line changes nothing; a `- item` line extends an open tag
/// list; a `key: value` line (quotes stripped) sets the field it names,
/// `tags:` with an empty value opening a fresh tag list; anything else
/// closes an open tag list and is ignored.
pub open spec fn fm_step(st: FmFields, line: Seq<char>) -> FmFields {
    let t = spec_trim(line);
    if t.len() == 0 {
        st
    } else if st.4 && spec_starts_with(t, "- "@) {
        (
            st.0,
            st.1,
            st.2,
            st.3.push(spec_strip_quotes(spec_trim(t.subrange(2, t.len() as int)))),
            true,
        )
    } else {
        match char_at_from(t, ':', 0) {
            Some(c) => {
                let key = spec_trim(t.subrange(0, c));
                let value = spec_strip_quotes(spec_trim(t.subrange(c + 1, t.len() as int)));
                if key == "tags"@ {
                    if value.len() == 0 {
                        (st.0, st.1, st.2, Seq::empty(), true)
                    } else {
                        (st.0, st.1, st.2, st.3, false)
                    }
                } else if key == "description"@ {
                    (Some(value), st.1, st.2, st.3, false)
                } else if key == "status"@ {
                    (st.0, Some(value), st.2, st.3, false)
                } else if key == "priority"@ {
                    (st.0, st.1, Some(value), st.3, false)
                } else {
                    (st.0, st.1, st.2, st.3, false)
                }
            },
            None => (st.0, st.1, st.2, st.3, false),
        }
    }
}

/// The front-matter block folded line by line from position `i` on.
pub open spec fn fm_scan(s: Seq<char>, i: int, st: FmFields) -> FmFields
    decreases s.len() + 1 - i,
{
    if i < 0 || i >= s.len() {
        st
    } else {
        let j = match char_at_from(s, '\n', i) {
            Some(j) => j,
            None => s.len() as int,
        };
        if j < i || j > s.len() {
            st
        } else {
            fm_scan(s, j + 1, fm_step(st, s.subrange(i, j)))
        }
    }
}

/// The fenced front-matter block: what stands between a leading `---`
/// and the next `---`; malformed fencing yields no block.
pub open spec fn spec_frontmatter_block(s: Seq<char>) -> Option<Seq<char>> {
    if spec_starts_with(s, "---"@) {
        match crate::chars::find_from(s, "---"@, 3) {
            Some(e) => Some(s.subrange(3, e)),
            None => None,
        }
    } else {
        None
    }
}

/// The fallback description: the first non-empty line that is no heading
/// after a recognised overview section heading.
pub open spec fn spec_extract_desc(s: Seq<char>, i: int, armed: bool) -> Option<Seq<char>>
    decreases s.len() + 1 - i,
{
    if i < 0 || i >= s.len() {
        None
    } else {
        let j = match char_at_from(s, '\n', i) {
            Some(j) => j,
            None => s.len() as int,
        };
        if j < i || j > s.len() {
            None
        } else {
            let line = s.subrange(i, j);
            if armed {
                let t = spec_trim(line);
                if t.len() > 0 && t[0] != '#' {
                    Some(t)
                } else {
                    spec_extract_desc(s, j + 1, true)
                }
            } else if spec_starts_with(line, "## "@) && spec_has_sub(spec_lower(line), "概要"@) {
                spec_extract_desc(s, j + 1, true)
            } else {
                spec_extract_desc(s, j + 1, false)
            }
        }
    }
}

/// Scans the document body for a description: the first non-empty,
/// non-heading line after an overview section heading (a `## ` heading
/// whose lowercased text names the overview section).
pub fn extract_description_from_content(content: &str) -> (r: Option<String>)
    ensures
        match r {
            Some(d) => spec_extract_desc(content@, 0, false) == Some(d@),
            None => spec_extract_desc(content@, 0, false) is None,
        },
{
    let n = content.unicode_len();
    let mut i: usize = 0;
    let mut armed = false;
    while i < n
        invariant
            n == content@.len(),
            i <= n,
            spec_extract_desc(content@, 0, false) == spec_extract_desc(
                content@,
                i as int,
                armed,
            ),
        decreases n + 1 - i,
    {
        let ghost pre_armed = armed;
        proof {
            lemma_char_at_from_props(content@, '\n', i as int);
        }
        let j = match find_char_from(content, '\n', i) {
            Some(j) => j,
            None => n,
        };
        let line = content.substring_char(i, j);
        if armed {
            let t = trim_str(line);
            if t.as_str().unicode_len() > 0 && t.as_str().get_char(0) != '#' {
                return Some(t);
            }
        } else {
            let low = to_lower(line);
            if has_prefix(line, "## ") && has_sub(low.as_str(), "概要") {
                armed = true;
            }
        }
        proof {
            assert(spec_extract_desc(content@, i as int, pre_armed) == spec_extract_desc(
                content@,
                j as int + 1,
                armed,
            ));
        }
        if j < n {
            i = j + 1;
        } else {
            proof {
                assert(spec_extract_desc(content@, j as int + 1, armed) == spec_extract_desc(
                    content@,
                    n as int,
                    armed,
                ));
            }
            i = n;
        }
    }
    None
}

/// Everything an overview document yields: the description (front matter
/// first, then the body heuristic), the status and priority with their
/// safe defaults, and the tag list.
pub open spec fn spec_overview_fields(s: Seq<char>) -> (
    Option<Seq<char>>,
    ProjectStatus,
    Priority,
    Seq<Seq<char>>,
) {
    let st = match spec_frontmatter_block(s) {
        Some(b) => fm_scan(b, 0, fm_init()),
        None => fm_init(),
    };
    let desc = match st.0 {
        Some(d) => Some(d),
        None => spec_extract_desc(s, 0, false),
    };
    let status = match st.1 {
        Some(x) => spec_parse_status(x),
        None => ProjectStatus::Idea,
    };
    let prio = match st.2 {
        Some(x) => spec_parse_priority(x),
        None => Priority::Medium,
    };
    (desc, status, prio, st.3)
}

/// The spec-level fields the running parser state views to.
pub open spec fn fm_state_view(
    desc: Option<String>,
    status_txt: Option<String>,
    prio_txt: Option<String>,
    tags: Seq<String>,
    in_tags: bool,
) -> FmFields {
    (
        (match desc {
            Some(d) => Some(d@),
            None => None,
        }),
        (match status_txt {
            Some(d) => Some(d@),
            None => None,
        }),
        (match prio_txt {
            Some(d) => Some(d@),
            None => None,
        }),
        Seq::new(tags.len(), |k: int| tags[k]@),
        in_tags,
    )
}

/// Reads an overview document: its leading front-matter block for
/// description, status, priority and tags, with the body heuristic as a
/// description fallback. Malformed or absent front matter yields the
/// safe defaults rather than failing.
pub fn parse_overview(content: &str) -> (r: (
    Option<String>,
    ProjectStatus,
    Priority,
    Vec<String>,
))
    ensures
        ({
            let f = spec_overview_fields(content@);
            &&& (match (r.0, f.0) {
                (Some(a), Some(b)) => a@ == b,
                (None, None) => true,
                _ => false,
            })
            &&& r.1 == f.1
            &&& r.2 == f.2
            &&& r.3@.len() == f.3.len()
            &&& (forall|k: int| 0 <= k < f.3.len() ==> r.3@[k]@ == f.3[k])
        }),
{
    let mut desc: Option<String> = None;
    let mut status_txt: Option<String> = None;
    let mut prio_txt: Option<String> = None;
    let mut tags: Vec<String> = Vec::new();
    let mut in_tags = false;

    let mut has_block = false;
    let mut bstart: usize = 0;
    let mut bend: usize = 0;
    if has_prefix(content, "---") {
        if let Some(e) = crate::chars::find_sub_from(content, "---", 3) {
            has_block = true;
            bstart = 3;
            bend = e;
        }
    }
    proof {
        reveal_strlit("---");
        crate::chars::lemma_find_from_spec(content@, "---"@, 3);
        if has_block {
            assert(spec_frontmatter_block(content@) == Some(
                content@.subrange(3, bend as int),
            ));
        } else {
            assert(spec_frontmatter_block(content@) is None);
        }
    }
    if has_block {
        let block = content.substring_char(bstart, bend);
        let ghost b = block@;
        let n = block.unicode_len();
        let mut i: usize = 0;
        proof {
            assert(fm_state_view(desc, status_txt, prio_txt, tags@, in_tags) == fm_init());
            assert(Seq::new(tags@.len(), |k: int| tags@[k]@) =~= Seq::<Seq<char>>::empty());
        }
        while i < n
            invariant
                n == b.len(),
                b == block@,
                i <= n,
                fm_scan(b, 0, fm_init()) == fm_scan(
                    b,
                    i as int,
                    fm_state_view(desc, status_txt, prio_txt, tags@, in_tags),
                ),
            decreases n + 1 - i,
        {
            let ghost st0 = fm_state_view(desc, status_txt, prio_txt, tags@, in_tags);
            proof {
                lemma_char_at_from_props(b, '\n', i as int);
            }
            let j = match find_char_from(block, '\n', i) {
                Some(j) => j,
                None => n,
            };
            let line = block.substring_char(i, j);
            let t = trim_str(line);
            let tn = t.as_str().unicode_len();
            if tn == 0 {
            } else if in_tags && has_prefix(t.as_str(), "- ") {
                proof {
                    reveal_strlit("- ");
                }
                let item_raw = t.as_str().substring_char(2, tn);
                let item_trimmed = trim_str(item_raw);
                let item = strip_quotes_str(item_trimmed.as_str());
                tags.push(item);
                proof {
                    assert(Seq::new(tags@.len(), |k: int| tags@[k]@) =~= st0.3.push(
                        spec_strip_quotes(spec_trim(t@.subrange(2, t@.len() as int))),
                    ));
                }
            } else {
                let colon = find_char_from(t.as_str(), ':', 0);
                proof {
                    lemma_char_at_from_props(t@, ':', 0);
                }
                match colon {
                    Some(c) => {
                        let key = trim_str(t.as_str().substring_char(0, c));
                        let value_trimmed = trim_str(t.as_str().substring_char(c + 1, tn));
                        let value = strip_quotes_str(value_trimmed.as_str());
                        if str_eq(key.as_str(), "tags") {
                            if value.as_str().unicode_len() == 0 {
                                tags = Vec::new();
                                in_tags = true;
                                proof {
                                    assert(Seq::new(tags@.len(), |k: int| tags@[k]@)
                                        =~= Seq::<Seq<char>>::empty());
                                }
                            } else {
                                in_tags = false;
                            }
                        } else if str_eq(key.as_str(), "description") {
                            desc = Some(value);
                            in_tags = false;
                        } else if str_eq(key.as_str(), "status") {
                            status_txt = Some(value);
                            in_tags = false;
                        } else if str_eq(key.as_str(), "priority") {
                            prio_txt = Some(value);
                            in_tags = false;
                        } else {
                            in_tags = false;
                        }
                    },
                    None => {
                        in_tags = false;
                    },
                }
            }
            proof {
                assert(fm_state_view(desc, status_txt, prio_txt, tags@, in_tags) == fm_step(
                    st0,
                    b.subrange(i as int, j as int),
                ));
                assert(fm_scan(b, i as int, st0) == fm_scan(
                    b,
                    j as int + 1,
                    fm_step(st0, b.subrange(i as int, j as int)),
                ));
            }
            if j < n {
                i = j + 1;
            } else {
                proof {
                    let stn = fm_state_view(desc, status_txt, prio_txt, tags@, in_tags);
                    assert(fm_scan(b, j as int + 1, stn) == fm_scan(b, n as int, stn));
                }
                i = n;
            }
        }
        proof {
            assert(fm_scan(b, i as int, fm_state_view(desc, status_txt, prio_txt, tags@, in_tags))
                == fm_state_view(desc, status_txt, prio_txt, tags@, in_tags));
        }
    }
    let final_desc: Option<String> = match desc {
        Some(d) => Some(d),
        None => extract_description_from_content(content),
    };
    let status = match &status_txt {
        Some(x) => parse_status(x.as_str()),
        None => ProjectStatus::Idea,
    };
    let prio = match &prio_txt {
        Some(x) => parse_priority(x.as_str()),
        None => Priority::Medium,
    };
    (final_desc, status, prio, tags)
}


impl ProjectScanner {
    /// Reconstructs a record for a directory without explicit metadata:
    /// the name is decoded from the directory-name convention, the
    /// overview document (when present) supplies description, status,
    /// priority and tags, timestamps fall back from the directory's own
    /// times to now, and a fresh identifier is coined with a one-line
    /// "discovered" history.
    pub fn parse_project_from_structure(
        &self,
        dir_name: &str,
        overview: Option<&str>,
        created: Option<i64>,
        updated: Option<i64>,
    ) -> (r: Project)
        ensures
            r.wf(),
            r.id@.len() == 36,
            (match spec_decoded_name(dir_name@) {
                Some(parts) => r.name@ == spec_undash(parts.1) && spec_type_matches(
                    r.project_type,
                    parts.0,
                ),
                None => r.name@ == dir_name@ && (r.project_type matches ProjectType::Custom(u)
                    && u@ == "Unknown"@),
            }),
            (match overview {
                Some(o) => ({
                    let f = spec_overview_fields(o@);
                    &&& (match (r.description, f.0) {
                        (Some(a), Some(b)) => a@ == b,
                        (None, None) => true,
                        _ => false,
                    })
                    &&& r.status == f.1
                    &&& r.priority == f.2
                    &&& r.tags@.len() == f.3.len()
                    &&& (forall|k: int| 0 <= k < f.3.len() ==> r.tags@[k]@ == f.3[k])
                }),
                None => r.description is None && r.status == ProjectStatus::Idea && r.priority
                    == Priority::Medium && r.tags@.len() == 0,
            }),
            created matches Some(c) ==> r.created == c,
            updated matches Some(u) ==> r.updated == u,
            created is None && updated is None ==> r.created == r.updated,
            r.technologies@.len() == 0,
            r.status_history@.len() == 1,
            r.status_history@[0].status == r.status,
            r.status_history@[0].timestamp == r.created,
            r.status_history@[0].note matches Some(nt) && nt@ == "Project discovered"@,
            r.path matches Some(pp) && pp@ == self.projects_path@ + seq!['/'] + dir_name@,
    {
        let decoded = decode_directory_name(dir_name);
        let name = decoded.0;
        let ptype = decoded.1;
        let fields = match overview {
            Some(o) => parse_overview(o),
            None => (None, ProjectStatus::Idea, Priority::Medium, Vec::new()),
        };
        let description = fields.0;
        let status = fields.1;
        let priority = fields.2;
        let tags = fields.3;
        let now = crate::ext::now_seconds();
        let created_ts = match created {
            Some(c) => c,
            None => now,
        };
        let updated_ts = match updated {
            Some(u) => u,
            None => now,
        };
        let id = crate::ext::new_uuid();
        let entry = crate::status::StatusEntry {
            status,
            timestamp: created_ts,
            note: Some("Project discovered".to_owned()),
        };
        let mut history: Vec<crate::status::StatusEntry> = Vec::new();
        history.push(entry);
        let mut path = self.projects_path.clone();
        crate::ext::push_char(&mut path, '/');
        path.append(dir_name);
        proof {
            assert(self.projects_path@.push('/') =~= self.projects_path@ + seq!['/']);
        }
        Project {
            id,
            name,
            project_type: ptype,
            status,
            priority,
            created: created_ts,
            updated: updated_ts,
            description,
            tags,
            technologies: Vec::new(),
            status_history: history,
            path: Some(path),
        }
    }
}

} // verus!
