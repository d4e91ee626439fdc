//! The list of exclude patterns, one per line, combined into one filter.
use vstd::prelude::*;
use crate::text::{join_sep, join_with, lines_of, split_lines, trim, trimmed};

verus! {

/// A trimmed line that holds a pattern: neither blank nor a `#` comment.
pub open spec fn is_pattern_entry(t: Seq<char>) -> bool {
    t.len() > 0 && t[0] != '#'
}

/// The trimmed pattern lines of a list, in order.
pub open spec fn pattern_entries(ls: Seq<Seq<char>>) -> Seq<Seq<char>>
    decreases ls.len(),
{
    if ls.len() == 0 {
        Seq::empty()
    } else {
        let pre = pattern_entries(ls.drop_last());
        let t = trimmed(ls.last());
        if is_pattern_entry(t) {
            pre.push(t)
        } else {
            pre
        }
    }
}

/// The filter that a pattern list stands for: its patterns joined by `|`.
pub open spec fn combined_filter(list: Seq<char>) -> Seq<char> {
    join_sep(pattern_entries(lines_of(list)), seq!['|'])
}

/// Combines a pattern list, one pattern per line with blank lines and `#`
/// comments skipped, into one alternation; an empty list gives the empty
/// filter.
pub fn combine_patterns(list: &str) -> (r: String)
    ensures
        r@ == combined_filter(list@),
{
    let lines = split_lines(list);
    let ghost ls = lines_of(list@);
    let mut entries: Vec<&str> = Vec::new();
    let mut i: usize = 0;
    while i < lines.len()
        invariant
            ls == lines_of(list@),
            lines@.len() == ls.len(),
            forall|k: int| 0 <= k < lines@.len() ==> #[trigger] lines@[k]@ == ls[k],
            0 <= i <= lines@.len(),
            entries@.map_values(|l: &str| l@) == pattern_entries(ls.take(i as int)),
        decreases lines@.len() - i,
    {
        let t = trim(lines[i]);
        assert(ls.take(i + 1).drop_last() =~= ls.take(i as int));
        assert(ls.take(i + 1).last() == lines@[i as int]@);
        let ghost before = entries@;
        if t.unicode_len() > 0 && t.get_char(0) != '#' {
            entries.push(t);
            assert(entries@.map_values(|l: &str| l@) =~= before.map_values(|l: &str| l@).push(t@));
        }
        i = i + 1;
    }
    assert(ls.take(lines@.len() as int) =~= ls);
    proof {
        reveal_strlit("|");
    }
    assert("|"@ =~= seq!['|']);
    join_with(&entries, "|")
}

} // verus!
