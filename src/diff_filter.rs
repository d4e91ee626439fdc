//! Removes the per-file hunks of a unified diff whose header names an
//! excluded file.
use vstd::prelude::*;
use crate::text::{join_lf, join_lines, lines_of, split_lf, split_lines, starts_with, trim, trimmed};
use vstd::string::StringExecFns;

verus! {

#[verifier::external_type_specification]
#[verifier::external_body]
pub struct ExRegex(regex::Regex);

#[verifier::external_type_specification]
#[verifier::external_body]
pub struct ExRegexError(regex::Error);

/// Whether `regex::Regex::new` accepts a pattern.
pub uninterp spec fn regex_accepts(pattern: Seq<char>) -> bool;

/// Whether the regex compiled from `pattern` matches somewhere in `haystack`.
pub uninterp spec fn regex_finds(pattern: Seq<char>, haystack: Seq<char>) -> bool;

/// Relies on `regex::Regex::new`: with the default builder settings, whether
/// a pattern compiles depends on the pattern alone.
#[verifier::external_body]
fn compile_regex(pattern: &str) -> (r: Result<regex::Regex, regex::Error>)
    ensures
        r is Ok <==> regex_accepts(pattern@),
{
    regex::Regex::new(pattern)
}

/// A regex together with the pattern it was compiled from. Only
/// `CompiledRegex::compile` builds one, so `re` always comes from `source`.
pub struct CompiledRegex {
    re: regex::Regex,
    source: String,
}

/// Relies on `regex::Regex::is_match`: whether the regex matches anywhere in
/// the haystack, a function of the pattern and the haystack alone.
#[verifier::external_body]
fn regex_is_match(c: &CompiledRegex, haystack: &str) -> (r: bool)
    ensures
        r == regex_finds(c.source@, haystack@),
{
    c.re.is_match(haystack)
}

impl CompiledRegex {
    pub closed spec fn source(&self) -> Seq<char> {
        self.source@
    }

    pub fn compile(pattern: &str) -> (r: Result<CompiledRegex, regex::Error>)
        ensures
            r is Ok <==> regex_accepts(pattern@),
            r matches Ok(c) ==> c.source() == pattern@,
    {
        match compile_regex(pattern) {
            Ok(re) => Ok(CompiledRegex { re, source: pattern.to_owned() }),
            Err(e) => Err(e),
        }
    }

    pub fn is_match(&self, haystack: &str) -> (r: bool)
        ensures
            r == regex_finds(self.source(), haystack@),
    {
        regex_is_match(self, haystack)
    }
}

/// The exclude pattern is not a valid regular expression.
pub struct PatternError {
    pub cause: regex::Error,
}

pub open spec fn header_prefix() -> Seq<char> {
    "diff --git"@
}

/// The text that a header line of an excluded file is searched with.
pub open spec fn header_pattern(filter: Seq<char>) -> Seq<char> {
    "^diff --git a\\/(.*\\/)?("@ + filter + ")"@
}

/// A line that opens a new hunk.
pub open spec fn is_header(line: Seq<char>) -> bool {
    header_prefix().len() <= line.len() && line.subrange(0, header_prefix().len() as int)
        == header_prefix()
}

/// A line that opens the hunk of an excluded file; an empty filter excludes
/// nothing.
pub open spec fn excludes(filter: Seq<char>, line: Seq<char>) -> bool {
    filter.len() > 0 && regex_finds(header_pattern(filter), line)
}

/// One step of the filter: the lines kept so far and whether lines are being
/// dropped, after one more line.
pub open spec fn filter_step(
    kept: Seq<Seq<char>>,
    suppressing: bool,
    line: Seq<char>,
    filter: Seq<char>,
) -> (Seq<Seq<char>>, bool) {
    if excludes(filter, line) {
        (kept, true)
    } else if suppressing && !is_header(line) {
        (kept, true)
    } else {
        (kept.push(line), false)
    }
}

/// The filter run over a list of lines, from the first to the last.
pub open spec fn filter_run(ls: Seq<Seq<char>>, filter: Seq<char>) -> (Seq<Seq<char>>, bool)
    decreases ls.len(),
{
    if ls.len() == 0 {
        (Seq::empty(), false)
    } else {
        let prev = filter_run(ls.drop_last(), filter);
        filter_step(prev.0, prev.1, ls.last(), filter)
    }
}

pub open spec fn kept_lines(ls: Seq<Seq<char>>, filter: Seq<char>) -> Seq<Seq<char>> {
    filter_run(ls, filter).0
}

/// The text that `filter_diff` returns for a diff and a filter.
pub open spec fn filtered_text(diff: Seq<char>, filter: Seq<char>) -> Seq<char> {
    join_lf(kept_lines(lines_of(diff), filter))
}

pub open spec fn filter_compiles(filter: Seq<char>) -> bool {
    filter.len() == 0 || regex_accepts(header_pattern(filter))
}

/// The compiled form of a filter: an alternation of file names or suffixes,
/// matched against the path in each hunk header.
pub struct ExcludeMatcher {
    filter: String,
    compiled: Option<CompiledRegex>,
}

impl ExcludeMatcher {
    pub closed spec fn filter(&self) -> Seq<char> {
        self.filter@
    }

    pub closed spec fn wf(&self) -> bool {
        match self.compiled {
            None => self.filter@.len() == 0,
            Some(c) => self.filter@.len() > 0 && c.source() == header_pattern(self.filter@),
        }
    }

    pub fn new(filter: &str) -> (r: Result<ExcludeMatcher, PatternError>)
        ensures
            r is Ok <==> filter_compiles(filter@),
            r matches Ok(m) ==> m.wf() && m.filter() == filter@,
    {
        if filter.unicode_len() == 0 {
            return Ok(ExcludeMatcher { filter: filter.to_owned(), compiled: None });
        }
        let mut pattern = "^diff --git a\\/(.*\\/)?(".to_owned();
        pattern.append(filter);
        pattern.append(")");
        match CompiledRegex::compile(pattern.as_str()) {
            Ok(c) => Ok(ExcludeMatcher { filter: filter.to_owned(), compiled: Some(c) }),
            Err(cause) => Err(PatternError { cause }),
        }
    }

    /// Whether `line` opens the hunk of an excluded file.
    pub fn excludes(&self, line: &str) -> (r: bool)
        requires
            self.wf(),
        ensures
            r == excludes(self.filter(), line@),
    {
        match &self.compiled {
            None => false,
            Some(c) => c.is_match(line),
        }
    }
}

/// Drops from `diff` every hunk whose header names a file that `filter`
/// matches, and joins the remaining lines with `'\n'`.
pub fn filter_diff(diff: &str, filter: &str) -> (r: Result<String, PatternError>)
    ensures
        r is Ok <==> filter_compiles(filter@),
        r matches Ok(out) ==> out@ == filtered_text(diff@, filter@),
{
    let m = match ExcludeMatcher::new(filter) {
        Ok(m) => m,
        Err(e) => return Err(e),
    };
    let lines = split_lines(diff);
    let ghost ls = lines_of(diff@);
    let mut kept: Vec<&str> = Vec::new();
    let mut suppressing = false;
    let mut i: usize = 0;
    while i < lines.len()
        invariant
            m.wf(),
            m.filter() == filter@,
            ls == lines_of(diff@),
            lines@.len() == ls.len(),
            forall|k: int| 0 <= k < lines@.len() ==> #[trigger] lines@[k]@ == ls[k],
            0 <= i <= lines@.len(),
            (kept@.map_values(|l: &str| l@), suppressing) == filter_run(ls.take(i as int), filter@),
        decreases lines@.len() - i,
    {
        let line = lines[i];
        assert(ls.take(i + 1).drop_last() =~= ls.take(i as int));
        assert(ls.take(i + 1).last() == line@);
        let ghost before = kept@;
        if m.excludes(line) {
            suppressing = true;
        } else {
            proof {
                reveal_strlit("diff --git");
            }
            if suppressing && !starts_with(line, "diff --git") {
                suppressing = true;
            } else {
                kept.push(line);
                suppressing = false;
                assert(kept@.map_values(|l: &str| l@) =~= before.map_values(|l: &str| l@).push(
                    line@,
                ));
            }
        }
        i = i + 1;
    }
    assert(ls.take(lines@.len() as int) =~= ls);
    Ok(join_lines(&kept))
}

/// The filtered diff without surrounding white space, or `None` when nothing
/// is left of it: then there is nothing to describe.
pub fn significant_changes(diff: &str, filter: &str) -> (r: Result<Option<String>, PatternError>)
    ensures
        r is Ok <==> filter_compiles(filter@),
        r matches Ok(o) ==> match o {
            Some(t) => t@ == trimmed(filtered_text(diff@, filter@)) && t@.len() > 0,
            None => trimmed(filtered_text(diff@, filter@)).len() == 0,
        },
{
    let out = match filter_diff(diff, filter) {
        Ok(out) => out,
        Err(e) => return Err(e),
    };
    let t = trim(out.as_str());
    if t.is_empty() {
        Ok(None)
    } else {
        Ok(Some(t.to_owned()))
    }
}

} // verus!

verus! {

/// The hunks of a list of lines: each header line opens a new hunk, and the
/// lines before the first header form a leading hunk of their own.
pub open spec fn hunks(ls: Seq<Seq<char>>) -> Seq<Seq<Seq<char>>>
    decreases ls.len(),
{
    if ls.len() == 0 {
        Seq::empty()
    } else {
        let hs = hunks(ls.drop_last());
        if is_header(ls.last()) || hs.len() == 0 {
            hs.push(seq![ls.last()])
        } else {
            hs.update(hs.len() - 1, hs.last().push(ls.last()))
        }
    }
}

/// The lines of the hunks whose opening line is not excluded, in order.
pub open spec fn retained(hs: Seq<Seq<Seq<char>>>, filter: Seq<char>) -> Seq<Seq<char>>
    decreases hs.len(),
{
    if hs.len() == 0 {
        Seq::empty()
    } else {
        let r = retained(hs.drop_last(), filter);
        if excludes(filter, hs.last()[0]) {
            r
        } else {
            r + hs.last()
        }
    }
}

proof fn lemma_kept_not_excluded(ls: Seq<Seq<char>>, filter: Seq<char>)
    ensures
        forall|i: int|
            0 <= i < kept_lines(ls, filter).len() ==> !excludes(
                filter,
                #[trigger] kept_lines(ls, filter)[i],
            ),
    decreases ls.len(),
{
    if ls.len() > 0 {
        lemma_kept_not_excluded(ls.drop_last(), filter);
        let prev = kept_lines(ls.drop_last(), filter);
        let k = kept_lines(ls, filter);
        assert forall|i: int| 0 <= i < k.len() implies !excludes(filter, #[trigger] k[i]) by {
            if i < prev.len() {
                assert(k[i] == prev[i]);
            }
        }
    }
}

proof fn lemma_run_without_exclusions(ls: Seq<Seq<char>>, filter: Seq<char>)
    requires
        forall|i: int| 0 <= i < ls.len() ==> !excludes(filter, #[trigger] ls[i]),
    ensures
        filter_run(ls, filter) == (ls, false),
    decreases ls.len(),
{
    if ls.len() > 0 {
        lemma_run_without_exclusions(ls.drop_last(), filter);
        assert(ls.drop_last().push(ls.last()) =~= ls);
    }
}

/// Filtering the filter's output again with the same filter changes nothing,
/// for every diff whose output reads back as the very lines it was joined
/// from, or is empty.
pub proof fn lemma_filter_idempotent(diff: Seq<char>, filter: Seq<char>)
    requires
        lines_of(filtered_text(diff, filter)) == kept_lines(lines_of(diff), filter)
            || filtered_text(diff, filter).len() == 0,
    ensures
        filtered_text(filtered_text(diff, filter), filter) == filtered_text(diff, filter),
{
    let out = filtered_text(diff, filter);
    if out.len() == 0 {
        assert(out =~= Seq::<char>::empty());
        assert(split_lf(out) =~= seq![Seq::<char>::empty()]);
        assert(lines_of(out) =~= Seq::<Seq<char>>::empty());
    } else {
        let k = kept_lines(lines_of(diff), filter);
        lemma_kept_not_excluded(lines_of(diff), filter);
        lemma_run_without_exclusions(k, filter);
    }
}

proof fn lemma_run_is_retained(ls: Seq<Seq<char>>, filter: Seq<char>)
    requires
        forall|i: int| 0 <= i < ls.len() && excludes(filter, #[trigger] ls[i]) ==> is_header(ls[i]),
    ensures
        forall|j: int| 0 <= j < hunks(ls).len() ==> #[trigger] hunks(ls)[j].len() > 0,
        filter_run(ls, filter) == (retained(hunks(ls), filter), hunks(ls).len() > 0 && excludes(
            filter,
            hunks(ls).last()[0],
        )),
    decreases ls.len(),
{
    if ls.len() > 0 {
        let pre = ls.drop_last();
        let l = ls.last();
        assert(forall|i: int| 0 <= i < pre.len() ==> pre[i] == ls[i]);
        lemma_run_is_retained(pre, filter);
        let hs = hunks(pre);
        if is_header(l) || hs.len() == 0 {
            let ns = hs.push(seq![l]);
            assert(ns.drop_last() =~= hs);
            if !excludes(filter, l) {
                assert(retained(hs, filter) + seq![l] =~= retained(hs, filter).push(l));
            }
        } else {
            let h = hs.last();
            let ns = hs.update(hs.len() - 1, h.push(l));
            assert(ns.drop_last() =~= hs.drop_last());
            assert(h.push(l)[0] == h[0]);
            if !excludes(filter, h[0]) {
                assert(retained(hs.drop_last(), filter) + h.push(l) =~= (retained(
                    hs.drop_last(),
                    filter,
                ) + h).push(l));
            }
        }
    }
}

/// The output holds exactly the hunks whose opening line the filter does not
/// exclude, in their original order, and no excluded line; stated for every
/// diff in which only header lines are excluded.
pub proof fn lemma_filter_keeps_other_hunks(diff: Seq<char>, filter: Seq<char>)
    requires
        forall|i: int|
            0 <= i < lines_of(diff).len() && excludes(filter, #[trigger] lines_of(diff)[i])
                ==> is_header(lines_of(diff)[i]),
    ensures
        filtered_text(diff, filter) == join_lf(retained(hunks(lines_of(diff)), filter)),
        forall|i: int|
            0 <= i < kept_lines(lines_of(diff), filter).len() ==> !excludes(
                filter,
                #[trigger] kept_lines(lines_of(diff), filter)[i],
            ),
        subsequence_of(kept_lines(lines_of(diff), filter), lines_of(diff)),
{
    lemma_kept_subsequence(lines_of(diff), filter);
    lemma_run_is_retained(lines_of(diff), filter);
    lemma_kept_not_excluded(lines_of(diff), filter);
}

/// `a` can be had from `b` by leaving lines out, the rest in their order.
pub open spec fn subsequence_of(a: Seq<Seq<char>>, b: Seq<Seq<char>>) -> bool
    decreases b.len(),
{
    if a.len() == 0 {
        true
    } else if b.len() == 0 {
        false
    } else if a.last() == b.last() {
        subsequence_of(a.drop_last(), b.drop_last())
    } else {
        subsequence_of(a, b.drop_last())
    }
}

proof fn lemma_subsequence_drop_last(a: Seq<Seq<char>>, b: Seq<Seq<char>>)
    requires
        subsequence_of(a, b),
        a.len() > 0,
    ensures
        subsequence_of(a.drop_last(), b),
    decreases b.len(),
{
    if b.len() > 0 {
        if a.last() == b.last() {
            if a.drop_last().len() > 0 {
                lemma_subsequence_drop_last(a.drop_last(), b.drop_last());
            }
        } else {
            lemma_subsequence_drop_last(a, b.drop_last());
            if a.drop_last().len() > 0 && a.drop_last().last() == b.last() {
                lemma_subsequence_drop_last(a.drop_last(), b.drop_last());
            }
        }
    }
}

proof fn lemma_subsequence_push(a: Seq<Seq<char>>, b: Seq<Seq<char>>, x: Seq<char>)
    requires
        subsequence_of(a, b),
    ensures
        subsequence_of(a, b.push(x)),
{
    assert(b.push(x).drop_last() =~= b);
    if a.len() > 0 && a.last() == x {
        lemma_subsequence_drop_last(a, b);
    }
}

/// For every list of lines and every filter, the kept lines are lines of the
/// list, some left out and none added, in their original order.
pub proof fn lemma_kept_subsequence(ls: Seq<Seq<char>>, filter: Seq<char>)
    ensures
        subsequence_of(kept_lines(ls, filter), ls),
    decreases ls.len(),
{
    if ls.len() > 0 {
        let pre = ls.drop_last();
        lemma_kept_subsequence(pre, filter);
        assert(pre.push(ls.last()) =~= ls);
        let k = kept_lines(pre, filter);
        if kept_lines(ls, filter) == k {
            lemma_subsequence_push(k, pre, ls.last());
        } else {
            assert(kept_lines(ls, filter) == k.push(ls.last()));
            assert(k.push(ls.last()).drop_last() =~= k);
        }
    }
}

proof fn lemma_run_all_excluded(ls: Seq<Seq<char>>, filter: Seq<char>)
    requires
        ls.len() > 0 ==> excludes(filter, ls[0]),
        forall|i: int| 0 <= i < ls.len() && is_header(#[trigger] ls[i]) ==> excludes(filter, ls[i]),
    ensures
        filter_run(ls, filter) == (Seq::<Seq<char>>::empty(), ls.len() > 0),
    decreases ls.len(),
{
    if ls.len() > 0 {
        let pre = ls.drop_last();
        assert(forall|i: int| 0 <= i < pre.len() ==> pre[i] == ls[i]);
        lemma_run_all_excluded(pre, filter);
    }
}

/// When the first line and every header line are excluded, that is when
/// every hunk is excluded, the output is the empty text.
pub proof fn lemma_all_excluded_is_empty(diff: Seq<char>, filter: Seq<char>)
    requires
        lines_of(diff).len() > 0 ==> excludes(filter, lines_of(diff)[0]),
        forall|i: int|
            0 <= i < lines_of(diff).len() && is_header(#[trigger] lines_of(diff)[i]) ==> excludes(
                filter,
                lines_of(diff)[i],
            ),
    ensures
        filtered_text(diff, filter) == Seq::<char>::empty(),
{
    lemma_run_all_excluded(lines_of(diff), filter);
}

} // verus!
