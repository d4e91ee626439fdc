//! Reading the short answers of the version-control tool and of the user.
use vstd::prelude::*;
use crate::text::{trim, trimmed};

verus! {

/// What `str::to_lowercase` makes of a text.
pub uninterp spec fn lower_of(s: Seq<char>) -> Seq<char>;

/// Relies on `str::to_lowercase`: the lowercase equivalent of the text, which
/// depends on the characters alone.
#[verifier::external_body]
fn lowercase(s: &str) -> (r: String)
    ensures
        r@ == lower_of(s@),
{
    s.to_lowercase()
}

/// Whether the output of `git rev-parse --is-inside-work-tree` says `true`.
pub fn reports_work_tree(output: &str) -> (r: bool)
    ensures
        r == (trimmed(output@) == "true"@),
{
    let t = trim(output).to_owned();
    let expected = "true".to_owned();
    t == expected
}

/// Whether an answer, already trimmed and lowercased, is a yes.
pub fn is_yes_folded(folded: &str) -> (r: bool)
    ensures
        r == (folded@ == "y"@),
{
    let a = folded.to_owned();
    let expected = "y".to_owned();
    a == expected
}

/// Whether a typed answer to a yes/no question is a yes: `y` in either case,
/// with white space around it allowed.
pub fn is_yes(answer: &str) -> (r: bool)
    ensures
        r == (lower_of(trimmed(answer@)) == "y"@),
{
    let lowered = lowercase(trim(answer));
    is_yes_folded(lowered.as_str())
}

} // verus!
