//! The prompt sent to the model: a template with its placeholders filled.
use vstd::prelude::*;
use crate::text::{trim, trimmed};

verus! {

/// What `str::replace` makes of `s` with every match of `from` replaced by
/// `to`.
pub uninterp spec fn replaced(s: Seq<char>, from: Seq<char>, to: Seq<char>) -> Seq<char>;

/// Relies on `str::replace`: a new string with all non-overlapping matches
/// of `from` replaced by `to`, which depends on the three texts alone.
#[verifier::external_body]
fn replace_all(s: &str, from: &str, to: &str) -> (r: String)
    ensures
        r@ == replaced(s@, from@, to@),
{
    s.replace(from, to)
}

/// The filled template, before trimming.
pub open spec fn filled_template(
    template: Seq<char>,
    filter: Seq<char>,
    commit_type_note: Seq<char>,
    prompt_note: Seq<char>,
    diff: Seq<char>,
) -> Seq<char> {
    replaced(
        replaced(
            replaced(replaced(template, "<|FILTER|>"@, filter), "<|COMMIT_TYPE|>"@, commit_type_note),
            "<|PROMPT|>"@,
            prompt_note,
        ),
        "<|DIFF|>"@,
        diff,
    )
}

/// Fills the placeholders `<|FILTER|>`, `<|COMMIT_TYPE|>`, `<|PROMPT|>` and
/// `<|DIFF|>` of `template`, in that order, and trims the result.
pub fn build_prompt(
    template: &str,
    filter: &str,
    commit_type_note: &str,
    prompt_note: &str,
    diff: &str,
) -> (r: String)
    ensures
        r@ == trimmed(filled_template(template@, filter@, commit_type_note@, prompt_note@, diff@)),
{
    let a = replace_all(template, "<|FILTER|>", filter);
    let b = replace_all(a.as_str(), "<|COMMIT_TYPE|>", commit_type_note);
    let c = replace_all(b.as_str(), "<|PROMPT|>", prompt_note);
    let d = replace_all(c.as_str(), "<|DIFF|>", diff);
    trim(d.as_str()).to_owned()
}

} // verus!
