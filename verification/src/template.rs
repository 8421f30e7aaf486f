//! Template Substitution Engine: a per-project variable table and the
//! rewriting of `{{token}}` placeholders, including `{{date:<format>}}`
//! tokens formatted from the current time.

use vstd::prelude::*;
use crate::chars::{has_prefix, spec_starts_with, spec_trim, str_eq, trim_str};
use crate::ext::{format_timestamp, format_utc, now_seconds, push_char};
use crate::project::{Project, ProjectType, spec_type_label};
use crate::status::{spec_priority_label, spec_status_label};

verus! {

broadcast use vstd::string::group_string_axioms;

/// First-match lookup in an association table of (key, value) views.
pub open spec fn spec_lookup(vars: Seq<(Seq<char>, Seq<char>)>, k: Seq<char>) -> Option<
    Seq<char>,
>
    decreases vars.len(),
{
    if vars.len() == 0 {
        None
    } else if vars[0].0 == k {
        Some(vars[0].1)
    } else {
        spec_lookup(vars.drop_first(), k)
    }
}

proof fn lemma_lookup_not_found(vars: Seq<(Seq<char>, Seq<char>)>, k: Seq<char>)
    requires
        forall|j: int| 0 <= j < vars.len() ==> vars[j].0 != k,
    ensures
        spec_lookup(vars, k) is None,
    decreases vars.len(),
{
    if vars.len() > 0 {
        lemma_lookup_not_found(vars.drop_first(), k);
    }
}

proof fn lemma_lookup_found_at(vars: Seq<(Seq<char>, Seq<char>)>, k: Seq<char>, i: int)
    requires
        0 <= i < vars.len(),
        vars[i].0 == k,
        forall|j: int| 0 <= j < i ==> vars[j].0 != k,
    ensures
        spec_lookup(vars, k) == Some(vars[i].1),
    decreases i,
{
    if i > 0 {
        lemma_lookup_found_at(vars.drop_first(), k, i - 1);
    }
}

proof fn lemma_lookup_push(vars: Seq<(Seq<char>, Seq<char>)>, p: (Seq<char>, Seq<char>), k2: Seq<
    char,
>)
    ensures
        spec_lookup(vars.push(p), k2) == (match spec_lookup(vars, k2) {
            Some(v) => Some(v),
            None => if p.0 == k2 {
                Some(p.1)
            } else {
                None
            },
        }),
    decreases vars.len(),
{
    if vars.len() == 0 {
        assert(vars.push(p)[0] == p);
        assert(vars.push(p).drop_first() =~= Seq::<(Seq<char>, Seq<char>)>::empty());
        if p.0 == k2 {
            assert(spec_lookup(vars.push(p), k2) == Some(p.1));
        } else {
            assert(spec_lookup(vars.push(p), k2) == spec_lookup(
                Seq::<(Seq<char>, Seq<char>)>::empty(),
                k2,
            ));
        }
    } else {
        lemma_lookup_push(vars.drop_first(), p, k2);
        assert(vars.push(p)[0] == vars[0]);
        assert(vars.push(p).drop_first() =~= vars.drop_first().push(p));
        if vars[0].0 == k2 {
            assert(spec_lookup(vars.push(p), k2) == Some(vars[0].1));
        } else {
            assert(spec_lookup(vars.push(p), k2) == spec_lookup(vars.drop_first().push(p), k2));
        }
    }
}

proof fn lemma_lookup_update_value(
    vars: Seq<(Seq<char>, Seq<char>)>,
    i: int,
    v: Seq<char>,
    k2: Seq<char>,
)
    requires
        0 <= i < vars.len(),
        k2 != vars[i].0,
    ensures
        spec_lookup(vars.update(i, (vars[i].0, v)), k2) == spec_lookup(vars, k2),
    decreases i,
{
    let upd = vars.update(i, (vars[i].0, v));
    if i == 0 {
        assert(upd.drop_first() =~= vars.drop_first());
    } else {
        if vars[0].0 == k2 {
        } else {
            lemma_lookup_update_value(vars.drop_first(), i - 1, v, k2);
            assert(upd.drop_first() =~= vars.drop_first().update(i - 1, (vars.drop_first()[i
                - 1].0, v)));
        }
    }
}

/// The per-project variable table that drives substitution.
pub struct TemplateProcessor {
    variables: Vec<(String, String)>,
}

impl TemplateProcessor {
    /// The table as a sequence of (key, value) character-sequence pairs.
    pub closed spec fn vars_view(&self) -> Seq<(Seq<char>, Seq<char>)> {
        Seq::new(self.variables@.len(), |i: int| (self.variables@[i].0@, self.variables@[i].1@))
    }

    /// Keys are pairwise distinct, so the first match is the only match.
    pub open spec fn wf(&self) -> bool {
        forall|i: int, j: int|
            0 <= i < j < self.vars_view().len() ==> self.vars_view()[i].0
                != self.vars_view()[j].0
    }

    /// Binds `key` to `value`, replacing any existing binding of the key
    /// and leaving every other binding unchanged.
    pub fn add_variable(&mut self, key: String, value: String)
        requires
            old(self).wf(),
        ensures
            final(self).wf(),
            spec_lookup(final(self).vars_view(), key@) == Some(value@),
            forall|k2: Seq<char>|
                k2 != key@ ==> #[trigger] spec_lookup(final(self).vars_view(), k2) == spec_lookup(
                    old(self).vars_view(),
                    k2,
                ),
    {
        let n = self.variables.len();
        let mut i: usize = 0;
        while i < n
            invariant
                self.wf(),
                self == old(self),
                n == self.variables@.len(),
                i <= n,
                forall|j: int| 0 <= j < i ==> self.vars_view()[j].0 != key@,
            decreases n - i,
        {
            if str_eq(self.variables[i].0.as_str(), key.as_str()) {
                let existing_key = self.variables[i].0.clone();
                self.variables.set(i, (existing_key, value));
                proof {
                    let ov = old(self).vars_view();
                    assert(self.vars_view() =~= ov.update(i as int, (ov[i as int].0, self.vars_view()[i as int].1)));
                    lemma_lookup_found_at(self.vars_view(), key@, i as int);
                    assert forall|k2: Seq<char>| k2 != key@ implies #[trigger] spec_lookup(
                        self.vars_view(),
                        k2,
                    ) == spec_lookup(ov, k2) by {
                        lemma_lookup_update_value(ov, i as int, self.vars_view()[i as int].1, k2);
                    }
                }
                return ;
            }
            i = i + 1;
        }
        self.variables.push((key, value));
        proof {
            let ov = old(self).vars_view();
            let nv = self.vars_view();
            assert(nv =~= ov.push((nv[n as int].0, nv[n as int].1)));
            lemma_lookup_not_found(ov, key@);
            lemma_lookup_push(ov, (key@, value@), key@);
            assert forall|k2: Seq<char>| k2 != key@ implies #[trigger] spec_lookup(nv, k2)
                == spec_lookup(ov, k2) by {
                lemma_lookup_push(ov, (key@, value@), k2);
                if spec_lookup(ov, k2) is None {
                    lemma_lookup_not_found(ov, key@);
                }
            }
        }
    }

    /// Finds the value bound to `k`, if any.
    fn lookup_value(&self, k: &str) -> (r: Option<&String>)
        ensures
            match r {
                Some(v) => spec_lookup(self.vars_view(), k@) == Some(v@),
                None => spec_lookup(self.vars_view(), k@) is None,
            },
    {
        let n = self.variables.len();
        let mut i: usize = 0;
        while i < n
            invariant
                n == self.variables@.len(),
                i <= n,
                forall|j: int| 0 <= j < i ==> self.vars_view()[j].0 != k@,
            decreases n - i,
        {
            if str_eq(self.variables[i].0.as_str(), k) {
                proof {
                    lemma_lookup_found_at(self.vars_view(), k@, i as int);
                }
                return Some(&self.variables[i].1);
            }
            i = i + 1;
        }
        proof {
            lemma_lookup_not_found(self.vars_view(), k@);
        }
        None
    }
}

/// Index of the first `}` at or after `k`.
pub open spec fn close_from(s: Seq<char>, k: int) -> Option<int>
    decreases s.len() - k,
{
    if k < 0 || k >= s.len() {
        None
    } else if s[k] == '}' {
        Some(k)
    } else {
        close_from(s, k + 1)
    }
}

proof fn lemma_close_from_at(s: Seq<char>, k0: int, j: int)
    requires
        0 <= k0 <= j < s.len(),
        s[j] == '}',
        forall|k: int| k0 <= k < j ==> s[k] != '}',
    ensures
        close_from(s, k0) == Some(j),
    decreases j - k0,
{
    if k0 < j {
        lemma_close_from_at(s, k0 + 1, j);
    }
}

proof fn lemma_close_from_none(s: Seq<char>, k0: int)
    requires
        0 <= k0,
        forall|k: int| k0 <= k < s.len() ==> s[k] != '}',
    ensures
        close_from(s, k0) is None,
    decreases s.len() - k0,
{
    if k0 < s.len() {
        lemma_close_from_none(s, k0 + 1);
    }
}

/// A placeholder begins at `i`: two opening braces, one or more non-`}`
/// characters, then two closing braces.
pub open spec fn token_at(s: Seq<char>, i: int) -> bool {
    &&& 0 <= i
    &&& i + 1 < s.len()
    &&& s[i] == '{'
    &&& s[i + 1] == '{'
    &&& match close_from(s, i + 2) {
        Some(j) => j > i + 2 && j + 1 < s.len() && s[j + 1] == '}',
        None => false,
    }
}

/// Trimmed token text of the placeholder at `i`.
pub open spec fn token_text(s: Seq<char>, i: int) -> Seq<char> {
    match close_from(s, i + 2) {
        Some(j) => spec_trim(s.subrange(i + 2, j)),
        None => Seq::empty(),
    }
}

/// Position just past the placeholder at `i`.
pub open spec fn token_end(s: Seq<char>, i: int) -> int {
    match close_from(s, i + 2) {
        Some(j) => j + 2,
        None => i + 2,
    }
}

/// The raw (untrimmed) token characters of the placeholder at `i`.
pub open spec fn token_raw(s: Seq<char>, i: int) -> Seq<char> {
    match close_from(s, i + 2) {
        Some(j) => s.subrange(i + 2, j),
        None => Seq::empty(),
    }
}

/// The token invokes date formatting: it begins with `date:`.
pub open spec fn is_date_token(w: Seq<char>) -> bool {
    w.len() >= 5 && w[0] == 'd' && w[1] == 'a' && w[2] == 't' && w[3] == 'e' && w[4] == ':'
}

/// What replaces a placeholder with trimmed token `w`: a date token is
/// formatted from `now`; a bound token becomes its value; any other token
/// is rebuilt as `{{w}}` and so survives untouched.
pub open spec fn spec_replacement(
    vars: Seq<(Seq<char>, Seq<char>)>,
    w: Seq<char>,
    now: i64,
) -> Seq<char> {
    if is_date_token(w) {
        match format_utc(now, w.subrange(5, w.len() as int)) {
            Some(x) => x,
            None => seq!['{', '{'] + w + seq!['}', '}'],
        }
    } else {
        match spec_lookup(vars, w) {
            Some(v) => v,
            None => seq!['{', '{'] + w + seq!['}', '}'],
        }
    }
}

/// The processed remainder of `s` from position `i` on: each placeholder
/// is replaced and scanning resumes after it; replacements themselves are
/// never rescanned.
pub open spec fn spec_process_from(
    vars: Seq<(Seq<char>, Seq<char>)>,
    s: Seq<char>,
    i: int,
    now: i64,
) -> Seq<char>
    decreases s.len() - i,
{
    if i < 0 || i >= s.len() {
        Seq::empty()
    } else if token_at(s, i) {
        spec_replacement(vars, token_text(s, i), now) + spec_process_from(
            vars,
            s,
            token_end(s, i),
            now,
        )
    } else {
        seq![s[i]] + spec_process_from(vars, s, i + 1, now)
    }
}

/// The whole text, processed.
pub open spec fn spec_process(
    vars: Seq<(Seq<char>, Seq<char>)>,
    s: Seq<char>,
    now: i64,
) -> Seq<char> {
    spec_process_from(vars, s, 0, now)
}

impl TemplateProcessor {
    /// Rewrites every `{{token}}` occurrence of `content` against the
    /// table, formatting `{{date:<pattern>}}` tokens at time `now`.
    /// Unknown tokens are kept as placeholders (with their text trimmed).
    pub fn process_string_at(&self, content: &str, now: i64) -> (r: String)
        ensures
            r@ == spec_process(self.vars_view(), content@, now),
    {
        let ghost vars = self.vars_view();
        let ghost s = content@;
        let n = content.unicode_len();
        let mut out = String::new();
        let mut i: usize = 0;
        proof {
            assert(Seq::<char>::empty() + spec_process_from(vars, s, 0, now)
                =~= spec_process_from(vars, s, 0, now));
        }
        while i < n
            invariant
                n == s.len(),
                s == content@,
                vars == self.vars_view(),
                i <= n,
                spec_process_from(vars, s, 0, now) == out@ + spec_process_from(
                    vars,
                    s,
                    i as int,
                    now,
                ),
            decreases n - i,
        {
            let ghost i0 = i as int;
            let ghost prev = out@;
            let mut matched = false;
            if i + 1 < n && content.get_char(i) == '{' && content.get_char(i + 1) == '{' {
                let mut j: usize = i + 2;
                while j < n && content.get_char(j) != '}'
                    invariant
                        n == s.len(),
                        s == content@,
                        i + 2 <= j <= n,
                        forall|k: int| i + 2 <= k < j ==> s[k] != '}',
                    decreases n - j,
                {
                    j = j + 1;
                }
                if j < n && j > i + 2 && j + 1 < n && content.get_char(j + 1) == '}' {
                    proof {
                        lemma_close_from_at(s, i0 + 2, j as int);
                        assert(token_at(s, i0));
                    }
                    let raw = content.substring_char(i + 2, j);
                    let w = trim_str(raw);
                    let ghost repl = spec_replacement(vars, w@, now);
                    if has_prefix(w.as_str(), "date:") {
                        proof {
                            reveal_strlit("date:");
                            assert(w@[0] == w@.subrange(0, 5)[0]);
                            assert(w@[1] == w@.subrange(0, 5)[1]);
                            assert(w@[2] == w@.subrange(0, 5)[2]);
                            assert(w@[3] == w@.subrange(0, 5)[3]);
                            assert(w@[4] == w@.subrange(0, 5)[4]);
                            assert(is_date_token(w@));
                        }
                        let m = w.unicode_len();
                        let pat = w.as_str().substring_char(5, m);
                        match format_timestamp(now, pat) {
                            Some(x) => {
                                out.append(x.as_str());
                                proof {
                                    assert(out@ == prev + repl);
                                }
                            },
                            None => {
                                out.append("{{");
                                out.append(w.as_str());
                                out.append("}}");
                                proof {
                                    reveal_strlit("{{");
                                    reveal_strlit("}}");
                                    assert("{{"@ =~= seq!['{', '{']);
                                    assert("}}"@ =~= seq!['}', '}']);
                                    assert(out@ =~= prev + repl);
                                }
                            },
                        }
                    } else {
                        proof {
                            reveal_strlit("date:");
                            if is_date_token(w@) {
                                assert(w@.subrange(0, 5) =~= "date:"@);
                                assert(spec_starts_with(w@, "date:"@));
                                assert(false);
                            }
                        }
                        match self.lookup_value(w.as_str()) {
                            Some(v) => {
                                out.append(v.as_str());
                                proof {
                                    assert(out@ == prev + repl);
                                }
                            },
                            None => {
                                out.append("{{");
                                out.append(w.as_str());
                                out.append("}}");
                                proof {
                                    reveal_strlit("{{");
                                    reveal_strlit("}}");
                                    assert("{{"@ =~= seq!['{', '{']);
                                    assert("}}"@ =~= seq!['}', '}']);
                                    assert(out@ =~= prev + repl);
                                }
                            },
                        }
                    }
                    proof {
                        assert(token_text(s, i0) == w@);
                        assert(token_end(s, i0) == j as int + 2);
                        assert(spec_process_from(vars, s, i0, now) == repl + spec_process_from(
                            vars,
                            s,
                            j as int + 2,
                            now,
                        ));
                        assert((prev + repl) + spec_process_from(vars, s, j as int + 2, now)
                            =~= prev + (repl + spec_process_from(vars, s, j as int + 2, now)));
                    }
                    i = j + 2;
                    matched = true;
                } else {
                    proof {
                        if j == n {
                            lemma_close_from_none(s, i0 + 2);
                        } else {
                            lemma_close_from_at(s, i0 + 2, j as int);
                        }
                        assert(!token_at(s, i0));
                    }
                }
            }
            if !matched {
                proof {
                    assert(!token_at(s, i0));
                }
                let c = content.get_char(i);
                push_char(&mut out, c);
                proof {
                    assert(spec_process_from(vars, s, i0, now) == seq![s[i0]]
                        + spec_process_from(vars, s, i0 + 1, now));
                    assert(out@ =~= prev + seq![s[i0]]);
                    assert((prev + seq![s[i0]]) + spec_process_from(vars, s, i0 + 1, now)
                        =~= prev + (seq![s[i0]] + spec_process_from(vars, s, i0 + 1, now)));
                }
                i = i + 1;
            }
        }
        proof {
            assert(spec_process_from(vars, s, n as int, now) == Seq::<char>::empty());
            assert(out@ + Seq::<char>::empty() =~= out@);
        }
        out
    }

    /// Rewrites `content` against the table at the current wall-clock
    /// time.
    pub fn process_string(&self, content: &str) -> (r: String)
        ensures
            exists|now: i64| r@ == spec_process(self.vars_view(), content@, now),
    {
        let now = now_seconds();
        self.process_string_at(content, now)
    }
}

/// The character make-up of every key the seed table uses, so that any
/// two distinct keys can be told apart.
proof fn lemma_key_values()
    ensures
        "project_name"@ == seq!['p', 'r', 'o', 'j', 'e', 'c', 't', '_', 'n', 'a', 'm', 'e'],
        "プロジェクト名"@ == seq!['プ', 'ロ', 'ジ', 'ェ', 'ク', 'ト', '名'],
        "project_type"@ == seq!['p', 'r', 'o', 'j', 'e', 'c', 't', '_', 't', 'y', 'p', 'e'],
        "priority"@ == seq!['p', 'r', 'i', 'o', 'r', 'i', 't', 'y'],
        "優先度"@ == seq!['優', '先', '度'],
        "status"@ == seq!['s', 't', 'a', 't', 'u', 's'],
        "project_id"@ == seq!['p', 'r', 'o', 'j', 'e', 'c', 't', '_', 'i', 'd'],
        "date"@ == seq!['d', 'a', 't', 'e'],
        "datetime"@ == seq!['d', 'a', 't', 'e', 't', 'i', 'm', 'e'],
        "year"@ == seq!['y', 'e', 'a', 'r'],
        "month"@ == seq!['m', 'o', 'n', 't', 'h'],
        "day"@ == seq!['d', 'a', 'y'],
        "description"@ == seq!['d', 'e', 's', 'c', 'r', 'i', 'p', 't', 'i', 'o', 'n'],
        "説明"@ == seq!['説', '明'],
        "技術スタック"@ == seq!['技', '術', 'ス', 'タ', 'ッ', 'ク'],
        "期間"@ == seq!['期', '間'],
        "目標文字数"@ == seq!['目', '標', '文', '字', '数'],
        "公開予定日"@ == seq!['公', '開', '予', '定', '日'],
        "project_name"@ != "プロジェクト名"@,
        "project_name"@ != "project_type"@,
        "project_name"@ != "priority"@,
        "project_name"@ != "優先度"@,
        "project_name"@ != "status"@,
        "project_name"@ != "project_id"@,
        "project_name"@ != "date"@,
        "project_name"@ != "datetime"@,
        "project_name"@ != "year"@,
        "project_name"@ != "month"@,
        "project_name"@ != "day"@,
        "project_name"@ != "description"@,
        "project_name"@ != "説明"@,
        "project_name"@ != "技術スタック"@,
        "project_name"@ != "期間"@,
        "project_name"@ != "目標文字数"@,
        "project_name"@ != "公開予定日"@,
        "プロジェクト名"@ != "project_type"@,
        "プロジェクト名"@ != "priority"@,
        "プロジェクト名"@ != "優先度"@,
        "プロジェクト名"@ != "status"@,
        "プロジェクト名"@ != "project_id"@,
        "プロジェクト名"@ != "date"@,
        "プロジェクト名"@ != "datetime"@,
        "プロジェクト名"@ != "year"@,
        "プロジェクト名"@ != "month"@,
        "プロジェクト名"@ != "day"@,
        "プロジェクト名"@ != "description"@,
        "プロジェクト名"@ != "説明"@,
        "プロジェクト名"@ != "技術スタック"@,
        "プロジェクト名"@ != "期間"@,
        "プロジェクト名"@ != "目標文字数"@,
        "プロジェクト名"@ != "公開予定日"@,
        "project_type"@ != "priority"@,
        "project_type"@ != "優先度"@,
        "project_type"@ != "status"@,
        "project_type"@ != "project_id"@,
        "project_type"@ != "date"@,
        "project_type"@ != "datetime"@,
        "project_type"@ != "year"@,
        "project_type"@ != "month"@,
        "project_type"@ != "day"@,
        "project_type"@ != "description"@,
        "project_type"@ != "説明"@,
        "project_type"@ != "技術スタック"@,
        "project_type"@ != "期間"@,
        "project_type"@ != "目標文字数"@,
        "project_type"@ != "公開予定日"@,
        "priority"@ != "優先度"@,
        "priority"@ != "status"@,
        "priority"@ != "project_id"@,
        "priority"@ != "date"@,
        "priority"@ != "datetime"@,
        "priority"@ != "year"@,
        "priority"@ != "month"@,
        "priority"@ != "day"@,
        "priority"@ != "description"@,
        "priority"@ != "説明"@,
        "priority"@ != "技術スタック"@,
        "priority"@ != "期間"@,
        "priority"@ != "目標文字数"@,
        "priority"@ != "公開予定日"@,
        "優先度"@ != "status"@,
        "優先度"@ != "project_id"@,
        "優先度"@ != "date"@,
        "優先度"@ != "datetime"@,
        "優先度"@ != "year"@,
        "優先度"@ != "month"@,
        "優先度"@ != "day"@,
        "優先度"@ != "description"@,
        "優先度"@ != "説明"@,
        "優先度"@ != "技術スタック"@,
        "優先度"@ != "期間"@,
        "優先度"@ != "目標文字数"@,
        "優先度"@ != "公開予定日"@,
        "status"@ != "project_id"@,
        "status"@ != "date"@,
        "status"@ != "datetime"@,
        "status"@ != "year"@,
        "status"@ != "month"@,
        "status"@ != "day"@,
        "status"@ != "description"@,
        "status"@ != "説明"@,
        "status"@ != "技術スタック"@,
        "status"@ != "期間"@,
        "status"@ != "目標文字数"@,
        "status"@ != "公開予定日"@,
        "project_id"@ != "date"@,
        "project_id"@ != "datetime"@,
        "project_id"@ != "year"@,
        "project_id"@ != "month"@,
        "project_id"@ != "day"@,
        "project_id"@ != "description"@,
        "project_id"@ != "説明"@,
        "project_id"@ != "技術スタック"@,
        "project_id"@ != "期間"@,
        "project_id"@ != "目標文字数"@,
        "project_id"@ != "公開予定日"@,
        "date"@ != "datetime"@,
        "date"@ != "year"@,
        "date"@ != "month"@,
        "date"@ != "day"@,
        "date"@ != "description"@,
        "date"@ != "説明"@,
        "date"@ != "技術スタック"@,
        "date"@ != "期間"@,
        "date"@ != "目標文字数"@,
        "date"@ != "公開予定日"@,
        "datetime"@ != "year"@,
        "datetime"@ != "month"@,
        "datetime"@ != "day"@,
        "datetime"@ != "description"@,
        "datetime"@ != "説明"@,
        "datetime"@ != "技術スタック"@,
        "datetime"@ != "期間"@,
        "datetime"@ != "目標文字数"@,
        "datetime"@ != "公開予定日"@,
        "year"@ != "month"@,
        "year"@ != "day"@,
        "year"@ != "description"@,
        "year"@ != "説明"@,
        "year"@ != "技術スタック"@,
        "year"@ != "期間"@,
        "year"@ != "目標文字数"@,
        "year"@ != "公開予定日"@,
        "month"@ != "day"@,
        "month"@ != "description"@,
        "month"@ != "説明"@,
        "month"@ != "技術スタック"@,
        "month"@ != "期間"@,
        "month"@ != "目標文字数"@,
        "month"@ != "公開予定日"@,
        "day"@ != "description"@,
        "day"@ != "説明"@,
        "day"@ != "技術スタック"@,
        "day"@ != "期間"@,
        "day"@ != "目標文字数"@,
        "day"@ != "公開予定日"@,
        "description"@ != "説明"@,
        "description"@ != "技術スタック"@,
        "description"@ != "期間"@,
        "description"@ != "目標文字数"@,
        "description"@ != "公開予定日"@,
        "説明"@ != "技術スタック"@,
        "説明"@ != "期間"@,
        "説明"@ != "目標文字数"@,
        "説明"@ != "公開予定日"@,
        "技術スタック"@ != "期間"@,
        "技術スタック"@ != "目標文字数"@,
        "技術スタック"@ != "公開予定日"@,
        "期間"@ != "目標文字数"@,
        "期間"@ != "公開予定日"@,
        "目標文字数"@ != "公開予定日"@,
{
    reveal_strlit("project_name");
    reveal_strlit("プロジェクト名");
    reveal_strlit("project_type");
    reveal_strlit("priority");
    reveal_strlit("優先度");
    reveal_strlit("status");
    reveal_strlit("project_id");
    reveal_strlit("date");
    reveal_strlit("datetime");
    reveal_strlit("year");
    reveal_strlit("month");
    reveal_strlit("day");
    reveal_strlit("description");
    reveal_strlit("説明");
    reveal_strlit("技術スタック");
    reveal_strlit("期間");
    reveal_strlit("目標文字数");
    reveal_strlit("公開予定日");
    assert("project_name"@ =~= seq!['p', 'r', 'o', 'j', 'e', 'c', 't', '_', 'n', 'a', 'm', 'e']);
    assert("プロジェクト名"@ =~= seq!['プ', 'ロ', 'ジ', 'ェ', 'ク', 'ト', '名']);
    assert("project_type"@ =~= seq!['p', 'r', 'o', 'j', 'e', 'c', 't', '_', 't', 'y', 'p', 'e']);
    assert("priority"@ =~= seq!['p', 'r', 'i', 'o', 'r', 'i', 't', 'y']);
    assert("優先度"@ =~= seq!['優', '先', '度']);
    assert("status"@ =~= seq!['s', 't', 'a', 't', 'u', 's']);
    assert("project_id"@ =~= seq!['p', 'r', 'o', 'j', 'e', 'c', 't', '_', 'i', 'd']);
    assert("date"@ =~= seq!['d', 'a', 't', 'e']);
    assert("datetime"@ =~= seq!['d', 'a', 't', 'e', 't', 'i', 'm', 'e']);
    assert("year"@ =~= seq!['y', 'e', 'a', 'r']);
    assert("month"@ =~= seq!['m', 'o', 'n', 't', 'h']);
    assert("day"@ =~= seq!['d', 'a', 'y']);
    assert("description"@ =~= seq!['d', 'e', 's', 'c', 'r', 'i', 'p', 't', 'i', 'o', 'n']);
    assert("説明"@ =~= seq!['説', '明']);
    assert("技術スタック"@ =~= seq!['技', '術', 'ス', 'タ', 'ッ', 'ク']);
    assert("期間"@ =~= seq!['期', '間']);
    assert("目標文字数"@ =~= seq!['目', '標', '文', '字', '数']);
    assert("公開予定日"@ =~= seq!['公', '開', '予', '定', '日']);
    assert("project_name"@.len() == 12);
    assert("プロジェクト名"@.len() == 7);
    assert("project_type"@.len() == 12);
    assert("priority"@.len() == 8);
    assert("優先度"@.len() == 3);
    assert("status"@.len() == 6);
    assert("project_id"@.len() == 10);
    assert("date"@.len() == 4);
    assert("datetime"@.len() == 8);
    assert("year"@.len() == 4);
    assert("month"@.len() == 5);
    assert("day"@.len() == 3);
    assert("description"@.len() == 11);
    assert("説明"@.len() == 2);
    assert("技術スタック"@.len() == 6);
    assert("期間"@.len() == 2);
    assert("目標文字数"@.len() == 5);
    assert("公開予定日"@.len() == 5);
    assert("project_name"@[8] == 'n' && "project_type"@[8] == 't');
    assert("priority"@[0] == 'p' && "datetime"@[0] == 'd');
    assert("優先度"@[0] == '優' && "day"@[0] == 'd');
    assert("status"@[0] == 's' && "技術スタック"@[0] == '技');
    assert("date"@[0] == 'd' && "year"@[0] == 'y');
    assert("month"@[0] == 'm' && "目標文字数"@[0] == '目' && "公開予定日"@[0] == '公');
    assert("説明"@[0] == '説' && "期間"@[0] == '期');
}


/// What a date variable is seeded with: the formatted time, or empty when
/// the pattern cannot be formatted.
pub open spec fn spec_date_value(now: i64, pattern: Seq<char>) -> Seq<char> {
    match format_utc(now, pattern) {
        Some(x) => x,
        None => Seq::empty(),
    }
}

/// Formats `now` with `pattern`, falling back to the empty string.
fn format_or_empty(now: i64, pattern: &str) -> (r: String)
    ensures
        r@ == spec_date_value(now, pattern@),
{
    match format_timestamp(now, pattern) {
        Some(x) => x,
        None => String::new(),
    }
}

/// The bindings a freshly built table holds for `project` at time `now`:
/// the record's fields, the date-derived variables, the description when
/// present, and the self-echoing placeholders certain templates rely on.
pub open spec fn spec_seeded(
    vars: Seq<(Seq<char>, Seq<char>)>,
    project: Project,
    now: i64,
) -> bool {
    &&& spec_lookup(vars, "project_name"@) == Some(project.name@)
    &&& spec_lookup(vars, "プロジェクト名"@) == Some(project.name@)
    &&& spec_lookup(vars, "project_type"@) == Some(spec_type_label(project.project_type))
    &&& spec_lookup(vars, "priority"@) == Some(spec_priority_label(project.priority))
    &&& spec_lookup(vars, "優先度"@) == Some(spec_priority_label(project.priority))
    &&& spec_lookup(vars, "status"@) == Some(spec_status_label(project.status))
    &&& spec_lookup(vars, "project_id"@) == Some(project.id@)
    &&& spec_lookup(vars, "date"@) == Some(spec_date_value(now, "%Y-%m-%d"@))
    &&& spec_lookup(vars, "datetime"@) == Some(spec_date_value(now, "%Y-%m-%d %H:%M:%S UTC"@))
    &&& spec_lookup(vars, "year"@) == Some(spec_date_value(now, "%Y"@))
    &&& spec_lookup(vars, "month"@) == Some(spec_date_value(now, "%m"@))
    &&& spec_lookup(vars, "day"@) == Some(spec_date_value(now, "%d"@))
    &&& (match project.description {
        Some(d) => spec_lookup(vars, "description"@) == Some(d@) && spec_lookup(vars, "説明"@)
            == Some(d@),
        None => spec_lookup(vars, "description"@) is None && spec_lookup(vars, "説明"@) is None,
    })
    &&& spec_lookup(vars, "技術スタック"@) == Some("{{技術スタック}}"@)
    &&& spec_lookup(vars, "期間"@) == Some("{{期間}}"@)
    &&& spec_lookup(vars, "目標文字数"@) == Some("{{目標文字数}}"@)
    &&& spec_lookup(vars, "公開予定日"@) == Some("{{公開予定日}}"@)
}

fn seed_record_vars(p: &mut TemplateProcessor, project: &Project)
    requires
        old(p).wf(),
    ensures
        final(p).wf(),
        spec_lookup(final(p).vars_view(), "project_name"@) == Some(project.name@),
        spec_lookup(final(p).vars_view(), "プロジェクト名"@) == Some(project.name@),
        spec_lookup(final(p).vars_view(), "project_type"@) == Some(
            spec_type_label(project.project_type),
        ),
        spec_lookup(final(p).vars_view(), "priority"@) == Some(
            spec_priority_label(project.priority),
        ),
        spec_lookup(final(p).vars_view(), "優先度"@) == Some(
            spec_priority_label(project.priority),
        ),
        spec_lookup(final(p).vars_view(), "status"@) == Some(spec_status_label(project.status)),
        spec_lookup(final(p).vars_view(), "project_id"@) == Some(project.id@),
        forall|k2: Seq<char>|
            (k2 != "project_name"@ && k2 != "プロジェクト名"@ && k2 != "project_type"@ && k2
                != "priority"@ && k2 != "優先度"@ && k2 != "status"@ && k2 != "project_id"@)
                ==> #[trigger] spec_lookup(final(p).vars_view(), k2) == spec_lookup(
                old(p).vars_view(),
                k2,
            ),
{
    let ghost t0 = p.vars_view();
    p.add_variable("project_name".to_owned(), project.name.clone());
    let ghost t1 = p.vars_view();
    p.add_variable("プロジェクト名".to_owned(), project.name.clone());
    let ghost t2 = p.vars_view();
    p.add_variable("project_type".to_owned(), project.project_type.label());
    let ghost t3 = p.vars_view();
    p.add_variable("priority".to_owned(), project.priority.label());
    let ghost t4 = p.vars_view();
    p.add_variable("優先度".to_owned(), project.priority.label());
    let ghost t5 = p.vars_view();
    p.add_variable("status".to_owned(), project.status.label());
    let ghost t6 = p.vars_view();
    p.add_variable("project_id".to_owned(), project.id.clone());
    let ghost t7 = p.vars_view();
    proof {
        lemma_key_values();
        assert(spec_lookup(t7, "project_id"@) == Some(project.id@));
        assert(spec_lookup(t6, "status"@) == Some(spec_status_label(project.status)));
        assert(spec_lookup(t7, "status"@) == Some(spec_status_label(project.status)));
        assert(spec_lookup(t5, "優先度"@) == Some(spec_priority_label(project.priority)));
        assert(spec_lookup(t6, "優先度"@) == Some(spec_priority_label(project.priority)));
        assert(spec_lookup(t7, "優先度"@) == Some(spec_priority_label(project.priority)));
        assert(spec_lookup(t5, "priority"@) == Some(spec_priority_label(project.priority)));
        assert(spec_lookup(t6, "priority"@) == Some(spec_priority_label(project.priority)));
        assert(spec_lookup(t7, "priority"@) == Some(spec_priority_label(project.priority)));
        assert(spec_lookup(t4, "project_type"@) == Some(spec_type_label(project.project_type)));
        assert(spec_lookup(t5, "project_type"@) == Some(spec_type_label(project.project_type)));
        assert(spec_lookup(t6, "project_type"@) == Some(spec_type_label(project.project_type)));
        assert(spec_lookup(t7, "project_type"@) == Some(spec_type_label(project.project_type)));
        assert(spec_lookup(t3, "プロジェクト名"@) == Some(project.name@));
        assert(spec_lookup(t4, "プロジェクト名"@) == Some(project.name@));
        assert(spec_lookup(t5, "プロジェクト名"@) == Some(project.name@));
        assert(spec_lookup(t6, "プロジェクト名"@) == Some(project.name@));
        assert(spec_lookup(t7, "プロジェクト名"@) == Some(project.name@));
        assert(spec_lookup(t2, "project_name"@) == Some(project.name@));
        assert(spec_lookup(t3, "project_name"@) == Some(project.name@));
        assert(spec_lookup(t4, "project_name"@) == Some(project.name@));
        assert(spec_lookup(t5, "project_name"@) == Some(project.name@));
        assert(spec_lookup(t6, "project_name"@) == Some(project.name@));
        assert(spec_lookup(t7, "project_name"@) == Some(project.name@));
        assert forall|k2: Seq<char>|
            (k2 != "project_name"@ && k2 != "プロジェクト名"@ && k2 != "project_type"@ && k2
                != "priority"@ && k2 != "優先度"@ && k2 != "status"@ && k2 != "project_id"@)
                implies #[trigger] spec_lookup(t7, k2) == spec_lookup(t0, k2) by {
            assert(spec_lookup(t7, k2) == spec_lookup(t6, k2));
            assert(spec_lookup(t6, k2) == spec_lookup(t5, k2));
            assert(spec_lookup(t5, k2) == spec_lookup(t4, k2));
            assert(spec_lookup(t4, k2) == spec_lookup(t3, k2));
            assert(spec_lookup(t3, k2) == spec_lookup(t2, k2));
            assert(spec_lookup(t2, k2) == spec_lookup(t1, k2));
            assert(spec_lookup(t1, k2) == spec_lookup(t0, k2));
        }
    }
}

fn seed_date_vars(p: &mut TemplateProcessor, now: i64)
    requires
        old(p).wf(),
    ensures
        final(p).wf(),
        spec_lookup(final(p).vars_view(), "date"@) == Some(spec_date_value(now, "%Y-%m-%d"@)),
        spec_lookup(final(p).vars_view(), "datetime"@) == Some(
            spec_date_value(now, "%Y-%m-%d %H:%M:%S UTC"@),
        ),
        spec_lookup(final(p).vars_view(), "year"@) == Some(spec_date_value(now, "%Y"@)),
        spec_lookup(final(p).vars_view(), "month"@) == Some(spec_date_value(now, "%m"@)),
        spec_lookup(final(p).vars_view(), "day"@) == Some(spec_date_value(now, "%d"@)),
        forall|k2: Seq<char>|
            (k2 != "date"@ && k2 != "datetime"@ && k2 != "year"@ && k2 != "month"@ && k2
                != "day"@) ==> #[trigger] spec_lookup(final(p).vars_view(), k2) == spec_lookup(
                old(p).vars_view(),
                k2,
            ),
{
    let ghost t0 = p.vars_view();
    p.add_variable("date".to_owned(), format_or_empty(now, "%Y-%m-%d"));
    let ghost t1 = p.vars_view();
    p.add_variable("datetime".to_owned(), format_or_empty(now, "%Y-%m-%d %H:%M:%S UTC"));
    let ghost t2 = p.vars_view();
    p.add_variable("year".to_owned(), format_or_empty(now, "%Y"));
    let ghost t3 = p.vars_view();
    p.add_variable("month".to_owned(), format_or_empty(now, "%m"));
    let ghost t4 = p.vars_view();
    p.add_variable("day".to_owned(), format_or_empty(now, "%d"));
    let ghost t5 = p.vars_view();
    proof {
        lemma_key_values();
        assert(spec_lookup(t5, "day"@) == Some(spec_date_value(now, "%d"@)));
        assert(spec_lookup(t4, "month"@) == Some(spec_date_value(now, "%m"@)));
        assert(spec_lookup(t5, "month"@) == Some(spec_date_value(now, "%m"@)));
        assert(spec_lookup(t3, "year"@) == Some(spec_date_value(now, "%Y"@)));
        assert(spec_lookup(t4, "year"@) == Some(spec_date_value(now, "%Y"@)));
        assert(spec_lookup(t5, "year"@) == Some(spec_date_value(now, "%Y"@)));
        assert(spec_lookup(t2, "datetime"@) == Some(
            spec_date_value(now, "%Y-%m-%d %H:%M:%S UTC"@),
        ));
        assert(spec_lookup(t3, "datetime"@) == Some(
            spec_date_value(now, "%Y-%m-%d %H:%M:%S UTC"@),
        ));
        assert(spec_lookup(t4, "datetime"@) == Some(
            spec_date_value(now, "%Y-%m-%d %H:%M:%S UTC"@),
        ));
        assert(spec_lookup(t5, "datetime"@) == Some(
            spec_date_value(now, "%Y-%m-%d %H:%M:%S UTC"@),
        ));
        assert(spec_lookup(t1, "date"@) == Some(spec_date_value(now, "%Y-%m-%d"@)));
        assert(spec_lookup(t2, "date"@) == Some(spec_date_value(now, "%Y-%m-%d"@)));
        assert(spec_lookup(t3, "date"@) == Some(spec_date_value(now, "%Y-%m-%d"@)));
        assert(spec_lookup(t4, "date"@) == Some(spec_date_value(now, "%Y-%m-%d"@)));
        assert(spec_lookup(t5, "date"@) == Some(spec_date_value(now, "%Y-%m-%d"@)));
        assert forall|k2: Seq<char>|
            (k2 != "date"@ && k2 != "datetime"@ && k2 != "year"@ && k2 != "month"@ && k2
                != "day"@) implies #[trigger] spec_lookup(t5, k2) == spec_lookup(t0, k2) by {
            assert(spec_lookup(t5, k2) == spec_lookup(t4, k2));
            assert(spec_lookup(t4, k2) == spec_lookup(t3, k2));
            assert(spec_lookup(t3, k2) == spec_lookup(t2, k2));
            assert(spec_lookup(t2, k2) == spec_lookup(t1, k2));
            assert(spec_lookup(t1, k2) == spec_lookup(t0, k2));
        }
    }
}

fn seed_extra_vars(p: &mut TemplateProcessor, project: &Project)
    requires
        old(p).wf(),
    ensures
        final(p).wf(),
        (match project.description {
            Some(d) => spec_lookup(final(p).vars_view(), "description"@) == Some(d@)
                && spec_lookup(final(p).vars_view(), "説明"@) == Some(d@),
            None => spec_lookup(final(p).vars_view(), "description"@) == spec_lookup(
                old(p).vars_view(),
                "description"@,
            ) && spec_lookup(final(p).vars_view(), "説明"@) == spec_lookup(
                old(p).vars_view(),
                "説明"@,
            ),
        }),
        spec_lookup(final(p).vars_view(), "技術スタック"@) == Some("{{技術スタック}}"@),
        spec_lookup(final(p).vars_view(), "期間"@) == Some("{{期間}}"@),
        spec_lookup(final(p).vars_view(), "目標文字数"@) == Some("{{目標文字数}}"@),
        spec_lookup(final(p).vars_view(), "公開予定日"@) == Some("{{公開予定日}}"@),
        forall|k2: Seq<char>|
            (k2 != "description"@ && k2 != "説明"@ && k2 != "技術スタック"@ && k2 != "期間"@
                && k2 != "目標文字数"@ && k2 != "公開予定日"@) ==> #[trigger] spec_lookup(
                final(p).vars_view(),
                k2,
            ) == spec_lookup(old(p).vars_view(), k2),
{
    let ghost t0 = p.vars_view();
    if let Some(desc) = &project.description {
        p.add_variable("description".to_owned(), desc.clone());
        p.add_variable("説明".to_owned(), desc.clone());
    }
    let ghost t2 = p.vars_view();
    p.add_variable("技術スタック".to_owned(), "{{技術スタック}}".to_owned());
    let ghost t3 = p.vars_view();
    p.add_variable("期間".to_owned(), "{{期間}}".to_owned());
    let ghost t4 = p.vars_view();
    p.add_variable("目標文字数".to_owned(), "{{目標文字数}}".to_owned());
    let ghost t5 = p.vars_view();
    p.add_variable("公開予定日".to_owned(), "{{公開予定日}}".to_owned());
    let ghost t6 = p.vars_view();
    proof {
        lemma_key_values();
        assert(spec_lookup(t6, "公開予定日"@) == Some("{{公開予定日}}"@));
        assert(spec_lookup(t5, "目標文字数"@) == Some("{{目標文字数}}"@));
        assert(spec_lookup(t6, "目標文字数"@) == Some("{{目標文字数}}"@));
        assert(spec_lookup(t4, "期間"@) == Some("{{期間}}"@));
        assert(spec_lookup(t5, "期間"@) == Some("{{期間}}"@));
        assert(spec_lookup(t6, "期間"@) == Some("{{期間}}"@));
        assert(spec_lookup(t3, "技術スタック"@) == Some("{{技術スタック}}"@));
        assert(spec_lookup(t4, "技術スタック"@) == Some("{{技術スタック}}"@));
        assert(spec_lookup(t5, "技術スタック"@) == Some("{{技術スタック}}"@));
        assert(spec_lookup(t6, "技術スタック"@) == Some("{{技術スタック}}"@));
        assert(spec_lookup(t3, "description"@) == spec_lookup(t2, "description"@));
        assert(spec_lookup(t4, "description"@) == spec_lookup(t3, "description"@));
        assert(spec_lookup(t5, "description"@) == spec_lookup(t4, "description"@));
        assert(spec_lookup(t6, "description"@) == spec_lookup(t5, "description"@));
        assert(spec_lookup(t3, "説明"@) == spec_lookup(t2, "説明"@));
        assert(spec_lookup(t4, "説明"@) == spec_lookup(t3, "説明"@));
        assert(spec_lookup(t5, "説明"@) == spec_lookup(t4, "説明"@));
        assert(spec_lookup(t6, "説明"@) == spec_lookup(t5, "説明"@));
        match project.description {
            Some(_) => {
                assert(spec_lookup(t6, "description"@) == spec_lookup(t2, "description"@));
                assert(spec_lookup(t6, "説明"@) == spec_lookup(t2, "説明"@));
            },
            None => {
                assert(t2 == t0);
            },
        }
        assert forall|k2: Seq<char>|
            (k2 != "description"@ && k2 != "説明"@ && k2 != "技術スタック"@ && k2 != "期間"@
                && k2 != "目標文字数"@ && k2 != "公開予定日"@) implies #[trigger] spec_lookup(
            t6,
            k2,
        ) == spec_lookup(t0, k2) by {
            assert(spec_lookup(t6, k2) == spec_lookup(t5, k2));
            assert(spec_lookup(t5, k2) == spec_lookup(t4, k2));
            assert(spec_lookup(t4, k2) == spec_lookup(t3, k2));
            assert(spec_lookup(t3, k2) == spec_lookup(t2, k2));
            assert(spec_lookup(t2, k2) == spec_lookup(t0, k2));
        }
    }
}

impl TemplateProcessor {
    /// Builds the variable table for `project` with its date variables
    /// formatted at time `now`.
    #[verifier::rlimit(100)]
    pub fn new_at(project: &Project, now: i64) -> (r: TemplateProcessor)
        ensures
            r.wf(),
            spec_seeded(r.vars_view(), *project, now),
    {
        let mut p = TemplateProcessor { variables: Vec::new() };
        proof {
            assert(p.vars_view() =~= Seq::<(Seq<char>, Seq<char>)>::empty());
            lemma_lookup_not_found(p.vars_view(), "description"@);
            lemma_lookup_not_found(p.vars_view(), "説明"@);
        }
        seed_record_vars(&mut p, project);
        let ghost s1 = p.vars_view();
        seed_date_vars(&mut p, now);
        let ghost s2 = p.vars_view();
        seed_extra_vars(&mut p, project);
        let ghost s3 = p.vars_view();
        proof {
            lemma_key_values();
            assert(spec_lookup(s2, "project_name"@) == Some(project.name@));
            assert(spec_lookup(s3, "project_name"@) == Some(project.name@));
            assert(spec_lookup(s2, "プロジェクト名"@) == Some(project.name@));
            assert(spec_lookup(s3, "プロジェクト名"@) == Some(project.name@));
            assert(spec_lookup(s2, "project_type"@) == Some(
                spec_type_label(project.project_type),
            ));
            assert(spec_lookup(s3, "project_type"@) == Some(
                spec_type_label(project.project_type),
            ));
            assert(spec_lookup(s2, "priority"@) == Some(spec_priority_label(project.priority)));
            assert(spec_lookup(s3, "priority"@) == Some(spec_priority_label(project.priority)));
            assert(spec_lookup(s2, "優先度"@) == Some(spec_priority_label(project.priority)));
            assert(spec_lookup(s3, "優先度"@) == Some(spec_priority_label(project.priority)));
            assert(spec_lookup(s2, "status"@) == Some(spec_status_label(project.status)));
            assert(spec_lookup(s3, "status"@) == Some(spec_status_label(project.status)));
            assert(spec_lookup(s2, "project_id"@) == Some(project.id@));
            assert(spec_lookup(s3, "project_id"@) == Some(project.id@));
            assert(spec_lookup(s3, "date"@) == Some(spec_date_value(now, "%Y-%m-%d"@)));
            assert(spec_lookup(s3, "datetime"@) == Some(
                spec_date_value(now, "%Y-%m-%d %H:%M:%S UTC"@),
            ));
            assert(spec_lookup(s3, "year"@) == Some(spec_date_value(now, "%Y"@)));
            assert(spec_lookup(s3, "month"@) == Some(spec_date_value(now, "%m"@)));
            assert(spec_lookup(s3, "day"@) == Some(spec_date_value(now, "%d"@)));
            match &project.description {
                Some(d) => {
                    assert(spec_lookup(s3, "description"@) == Some(d@));
                    assert(spec_lookup(s3, "説明"@) == Some(d@));
                },
                None => {
                    assert(spec_lookup(s1, "description"@) is None);
                    assert(spec_lookup(s2, "description"@) is None);
                    assert(spec_lookup(s3, "description"@) is None);
                    assert(spec_lookup(s1, "説明"@) is None);
                    assert(spec_lookup(s2, "説明"@) is None);
                    assert(spec_lookup(s3, "説明"@) is None);
                },
            }
            assert(spec_seeded(p.vars_view(), *project, now));
        }
        p
    }

    /// Builds the variable table for `project`, its date variables
    /// formatted from the current wall-clock time.
    pub fn new(project: &Project) -> (r: TemplateProcessor)
        ensures
            r.wf(),
            exists|now: i64| spec_seeded(r.vars_view(), *project, now),
    {
        let now = now_seconds();
        let r = TemplateProcessor::new_at(project, now);
        proof {
            assert(spec_seeded(r.vars_view(), *project, now));
        }
        r
    }
}


proof fn lemma_close_from_props(s: Seq<char>, k0: int)
    requires
        0 <= k0,
    ensures
        match close_from(s, k0) {
            Some(j) => k0 <= j < s.len() && s[j] == '}' && forall|k: int|
                k0 <= k < j ==> s[k] != '}',
            None => forall|k: int| k0 <= k < s.len() ==> s[k] != '}',
        },
    decreases s.len() - k0,
{
    if k0 < s.len() && s[k0] != '}' {
        lemma_close_from_props(s, k0 + 1);
    }
}

/// Every placeholder occurrence in `s` is already in canonical rewritten
/// form: its text is trimmed, unbound and no date token, so substitution
/// rebuilds each occurrence exactly as it stands.
pub open spec fn spec_is_normalized(vars: Seq<(Seq<char>, Seq<char>)>, s: Seq<char>) -> bool {
    forall|i: int|
        #[trigger] token_at(s, i) ==> {
            &&& token_raw(s, i) == token_text(s, i)
            &&& !is_date_token(token_text(s, i))
            &&& spec_lookup(vars, token_text(s, i)) is None
        }
}

proof fn lemma_process_fixed_from(
    vars: Seq<(Seq<char>, Seq<char>)>,
    s: Seq<char>,
    now: i64,
    i: int,
)
    requires
        spec_is_normalized(vars, s),
        0 <= i <= s.len(),
    ensures
        spec_process_from(vars, s, i, now) == s.skip(i),
    decreases s.len() - i,
{
    if i >= s.len() {
        assert(s.skip(i) =~= Seq::<char>::empty());
    } else if token_at(s, i) {
        match close_from(s, i + 2) {
            Some(j) => {
                lemma_close_from_props(s, i + 2);
                let w = token_text(s, i);
                assert(token_raw(s, i) == s.subrange(i + 2, j));
                assert(w == s.subrange(i + 2, j));
                assert(spec_replacement(vars, w, now) == seq!['{', '{'] + w + seq!['}', '}']);
                lemma_process_fixed_from(vars, s, now, j + 2);
                assert((seq!['{', '{'] + w + seq!['}', '}']) + s.skip(j + 2) =~= s.skip(i));
            },
            None => {
                assert(false);
            },
        }
    } else {
        lemma_process_fixed_from(vars, s, now, i + 1);
        assert(seq![s[i]] + s.skip(i + 1) =~= s.skip(i));
    }
}

/// A text in canonical form is a fixed point of substitution.
pub proof fn lemma_process_fixed_point(vars: Seq<(Seq<char>, Seq<char>)>, s: Seq<char>, now: i64)
    requires
        spec_is_normalized(vars, s),
    ensures
        spec_process(vars, s, now) == s,
{
    lemma_process_fixed_from(vars, s, now, 0);
    assert(s.skip(0) =~= s);
}

/// Substitution is idempotent on output in which no known or date token
/// survives: processing the processed text again changes nothing.
pub proof fn lemma_process_idempotent(
    vars: Seq<(Seq<char>, Seq<char>)>,
    s: Seq<char>,
    t1: i64,
    t2: i64,
)
    requires
        spec_is_normalized(vars, spec_process(vars, s, t1)),
    ensures
        spec_process(vars, spec_process(vars, s, t1), t2) == spec_process(vars, s, t1),
{
    lemma_process_fixed_point(vars, spec_process(vars, s, t1), t2);
}

/// An unknown token is preserved verbatim: a lone placeholder whose
/// trimmed text is bound to nothing and invokes no date formatting
/// processes to exactly itself.
pub proof fn lemma_unknown_token_preserved(
    vars: Seq<(Seq<char>, Seq<char>)>,
    w: Seq<char>,
    now: i64,
)
    requires
        w.len() > 0,
        spec_trim(w) == w,
        !is_date_token(w),
        spec_lookup(vars, w) is None,
        forall|k: int| 0 <= k < w.len() ==> w[k] != '}',
    ensures
        spec_process(vars, seq!['{', '{'] + w + seq!['}', '}'], now) == seq!['{', '{'] + w
            + seq!['}', '}'],
{
    let s = seq!['{', '{'] + w + seq!['}', '}'];
    assert(s[2 + w.len() as int] == '}');
    assert forall|k: int| 2 <= k < 2 + w.len() implies s[k] != '}' by {
        assert(s[k] == w[k - 2]);
    }
    lemma_close_from_at(s, 2, 2 + w.len() as int);
    assert(token_at(s, 0));
    assert(s.subrange(2, 2 + w.len() as int) =~= w);
    assert(token_text(s, 0) == w);
    assert(spec_replacement(vars, w, now) == seq!['{', '{'] + w + seq!['}', '}']);
    assert(token_end(s, 0) == s.len());
    assert(spec_process_from(vars, s, 0, now) == spec_replacement(vars, w, now)
        + spec_process_from(vars, s, s.len() as int, now));
    assert(spec_process_from(vars, s, s.len() as int, now) == Seq::<char>::empty());
    assert((seq!['{', '{'] + w + seq!['}', '}']) + Seq::<char>::empty() =~= s);
}

/// Index of the last `.` of `s` at or before `k`, never position 0: a
/// leading dot marks a hidden name, not an extension.
pub open spec fn last_dot_from(s: Seq<char>, k: int) -> Option<int>
    decreases k,
{
    if k < 1 {
        None
    } else if k < s.len() && s[k] == '.' {
        Some(k)
    } else {
        last_dot_from(s, k - 1)
    }
}

/// The extension of a file name: what follows its last dot, if that dot
/// is neither leading nor absent.
pub open spec fn spec_extension(s: Seq<char>) -> Option<Seq<char>> {
    match last_dot_from(s, s.len() - 1) {
        Some(d) => Some(s.subrange(d + 1, s.len() as int)),
        None => None,
    }
}

/// The file extensions treated as text.
pub open spec fn spec_is_text_ext(e: Seq<char>) -> bool {
    ||| e == "md"@
    ||| e == "txt"@
    ||| e == "yaml"@
    ||| e == "yml"@
    ||| e == "json"@
    ||| e == "toml"@
    ||| e == "rs"@
    ||| e == "js"@
    ||| e == "ts"@
    ||| e == "py"@
    ||| e == "go"@
    ||| e == "java"@
    ||| e == "c"@
    ||| e == "cpp"@
    ||| e == "h"@
    ||| e == "hpp"@
    ||| e == "css"@
    ||| e == "html"@
    ||| e == "xml"@
    ||| e == "svg"@
}

/// The extensionless file names treated as text.
pub open spec fn spec_is_text_bare(b: Seq<char>) -> bool {
    ||| b == "readme"@
    ||| b == "license"@
    ||| b == "dockerfile"@
    ||| b == "makefile"@
    ||| b == "gitignore"@
}

/// A file name marks a text file: by its lowercased extension, or, when
/// it has none, by its lowercased bare name.
pub open spec fn spec_is_text_file(name: Seq<char>) -> bool {
    match spec_extension(name) {
        Some(e) => spec_is_text_ext(crate::chars::spec_lower(e)),
        None => spec_is_text_bare(crate::chars::spec_lower(name)),
    }
}

proof fn lemma_last_dot_step(s: Seq<char>, k: int)
    requires
        1 <= k,
        k < s.len() ==> s[k] != '.',
    ensures
        last_dot_from(s, k) == last_dot_from(s, k - 1),
{
}

impl TemplateProcessor {
    /// Whether a file of this name takes substitution: known text
    /// extensions, or a short allow-list of extensionless names.
    pub fn is_text_file(&self, name: &str) -> (r: bool)
        ensures
            r == spec_is_text_file(name@),
    {
        let n = name.unicode_len();
        let mut k: usize = n;
        let mut dot: usize = 0;
        while k > 1 && dot == 0
            invariant
                n == name@.len(),
                k <= n,
                dot == 0 ==> last_dot_from(name@, n - 1) == last_dot_from(name@, k as int - 1),
                dot > 0 ==> last_dot_from(name@, n - 1) == Some(dot as int) && dot < n,
                1 <= n ==> k >= 1,
            decreases k,
        {
            if name.get_char(k - 1) == '.' {
                dot = k - 1;
                proof {
                    assert(last_dot_from(name@, dot as int) == Some(dot as int));
                }
                k = 1;
            } else {
                proof {
                    lemma_last_dot_step(name@, k as int - 1);
                }
                k = k - 1;
            }
        }
        if dot > 0 {
            let ext = name.substring_char(dot + 1, n);
            let low = crate::chars::to_lower(ext);
            proof {
                assert(spec_extension(name@) == Some(name@.subrange(dot + 1, n as int)));
            }
            is_text_ext(low.as_str())
        } else {
            proof {
                if n >= 1 {
                    assert(last_dot_from(name@, 0) is None);
                } else {
                    assert(last_dot_from(name@, n - 1) is None);
                }
                assert(spec_extension(name@) is None);
            }
            let low = crate::chars::to_lower(name);
            is_text_bare(low.as_str())
        }
    }
}

fn is_text_ext(e: &str) -> (r: bool)
    ensures
        r == spec_is_text_ext(e@),
{
    str_eq(e, "md") || str_eq(e, "txt") || str_eq(e, "yaml") || str_eq(e, "yml") || str_eq(
        e,
        "json",
    ) || str_eq(e, "toml") || str_eq(e, "rs") || str_eq(e, "js") || str_eq(e, "ts") || str_eq(
        e,
        "py",
    ) || str_eq(e, "go") || str_eq(e, "java") || str_eq(e, "c") || str_eq(e, "cpp") || str_eq(
        e,
        "h",
    ) || str_eq(e, "hpp") || str_eq(e, "css") || str_eq(e, "html") || str_eq(e, "xml") || str_eq(
        e,
        "svg",
    )
}

fn is_text_bare(b: &str) -> (r: bool)
    ensures
        r == spec_is_text_bare(b@),
{
    str_eq(b, "readme") || str_eq(b, "license") || str_eq(b, "dockerfile") || str_eq(
        b,
        "makefile",
    ) || str_eq(b, "gitignore")
}


/// A template available for new projects: its name, its directory, and
/// an optional description.
pub struct Template {
    pub name: String,
    pub path: String,
    pub description: Option<String>,
}

impl Template {
    /// A template record with no description yet.
    pub fn new(name: String, path: String) -> (r: Template)
        ensures
            r.name == name,
            r.path == path,
            r.description is None,
    {
        Template { name, path, description: None }
    }
}

/// The lookup view of a plain (key, value) table.
pub open spec fn table_view(v: Seq<(String, String)>) -> Seq<(Seq<char>, Seq<char>)> {
    Seq::new(v.len(), |i: int| (v[i].0@, v[i].1@))
}

impl TemplateProcessor {
    /// The variables a new project's file names are built from: the
    /// dated directory name, the dash-safe project name, and the short
    /// category label.
    pub fn create_filename_variables(project_name: &str, project_type: &ProjectType) -> (r: Vec<
        (String, String),
    >)
        ensures
            exists|now: i64|
                #![trigger spec_date_value(now, "%Y-%m-%d"@)]
                {
                    let tv = table_view(r@);
                    &&& spec_lookup(tv, "directory_name"@) == Some(
                        spec_date_value(now, "%Y-%m-%d"@) + seq!['_'] + spec_type_label(
                            *project_type,
                        ) + seq!['_'] + crate::chars::spec_dash(project_name@),
                    )
                    &&& spec_lookup(tv, "safe_project_name"@) == Some(
                        crate::chars::spec_dash(project_name@),
                    )
                    &&& spec_lookup(tv, "project_type_short"@) == Some(
                        spec_type_label(*project_type),
                    )
                },
    {
        let now = now_seconds();
        let today = format_or_empty(now, "%Y-%m-%d");
        let type_str = project_type.label();
        let safe = crate::chars::to_dash(project_name);
        let mut dir_name = today;
        push_char(&mut dir_name, '_');
        dir_name.append(type_str.as_str());
        push_char(&mut dir_name, '_');
        dir_name.append(safe.as_str());
        proof {
            assert(dir_name@ =~= spec_date_value(now, "%Y-%m-%d"@) + seq!['_'] + spec_type_label(
                *project_type,
            ) + seq!['_'] + crate::chars::spec_dash(project_name@));
        }
        let mut r: Vec<(String, String)> = Vec::new();
        r.push(("directory_name".to_owned(), dir_name));
        r.push(("safe_project_name".to_owned(), safe));
        r.push(("project_type_short".to_owned(), type_str));
        proof {
            reveal_strlit("directory_name");
            reveal_strlit("safe_project_name");
            reveal_strlit("project_type_short");
            let tv = table_view(r@);
            assert("directory_name"@.len() == 14);
            assert("safe_project_name"@.len() == 17);
            assert("project_type_short"@.len() == 18);
            lemma_lookup_found_at(tv, "directory_name"@, 0);
            lemma_lookup_found_at(tv, "safe_project_name"@, 1);
            lemma_lookup_found_at(tv, "project_type_short"@, 2);
        }
        r
    }
}

} // verus!
