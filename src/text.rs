//! Line splitting and joining over character sequences.
use vstd::prelude::*;
use vstd::string::StringExecFns;

verus! {

/// The pieces of `s` between `'\n'` characters: `k` newlines give `k + 1`
/// pieces, and the empty text gives one empty piece.
pub open spec fn split_lf(s: Seq<char>) -> Seq<Seq<char>>
    decreases s.len(),
{
    if s.len() == 0 {
        seq![Seq::<char>::empty()]
    } else {
        let head = split_lf(s.drop_last());
        if s.last() == '\n' {
            head.push(Seq::<char>::empty())
        } else {
            head.update(head.len() - 1, head.last().push(s.last()))
        }
    }
}

/// A line that was ended by `"\r\n"` loses its `'\r'`.
pub open spec fn strip_cr(p: Seq<char>) -> Seq<char> {
    if p.len() > 0 && p.last() == '\r' {
        p.drop_last()
    } else {
        p
    }
}

/// The lines of a text: the pieces between newlines, a `'\r'` before a
/// newline removed, and no line for what follows a final newline.
pub open spec fn lines_of(s: Seq<char>) -> Seq<Seq<char>> {
    let ps = split_lf(s);
    let body = ps.drop_last().map_values(|p: Seq<char>| strip_cr(p));
    if ps.last().len() == 0 {
        body
    } else {
        body.push(ps.last())
    }
}

/// Pieces joined with `sep` between neighbours.
pub open spec fn join_sep(ls: Seq<Seq<char>>, sep: Seq<char>) -> Seq<char>
    decreases ls.len(),
{
    if ls.len() == 0 {
        Seq::<char>::empty()
    } else if ls.len() == 1 {
        ls[0]
    } else {
        join_sep(ls.drop_last(), sep) + sep + ls.last()
    }
}

/// Lines joined with a single `'\n'` between neighbours.
pub open spec fn join_lf(ls: Seq<Seq<char>>) -> Seq<char> {
    join_sep(ls, seq!['\n'])
}

pub proof fn lemma_split_lf_nonempty(s: Seq<char>)
    ensures
        split_lf(s).len() >= 1,
    decreases s.len(),
{
    if s.len() > 0 {
        lemma_split_lf_nonempty(s.drop_last());
    }
}

/// Relies on `str::split` with a `char` pattern: the substrings of `s`
/// separated by `'\n'`, in order, the empty ones included.
#[verifier::external_body]
fn split_newlines(s: &str) -> (r: Vec<&str>)
    ensures
        r@.len() == split_lf(s@).len(),
        forall|i: int| 0 <= i < r@.len() ==> #[trigger] r@[i]@ == split_lf(s@)[i],
{
    s.split('\n').collect()
}

/// What `str::trim` leaves of a text.
pub uninterp spec fn trimmed(s: Seq<char>) -> Seq<char>;

/// Relies on `str::trim`: the text without its leading and trailing white
/// space, which depends on the text alone.
#[verifier::external_body]
pub(crate) fn trim(s: &str) -> (r: &str)
    ensures
        r@ == trimmed(s@),
{
    s.trim()
}

/// Removes a last `'\r'`.
fn without_cr(p: &str) -> (r: &str)
    ensures
        r@ == strip_cr(p@),
{
    let n = p.unicode_len();
    if n > 0 && p.get_char(n - 1) == '\r' {
        p.substring_char(0, n - 1)
    } else {
        p
    }
}

/// Splits a text into its lines (see `lines_of`).
pub fn split_lines(s: &str) -> (r: Vec<&str>)
    ensures
        r@.len() == lines_of(s@).len(),
        forall|i: int| 0 <= i < r@.len() ==> #[trigger] r@[i]@ == lines_of(s@)[i],
{
    let pieces = split_newlines(s);
    proof {
        lemma_split_lf_nonempty(s@);
    }
    let ghost ps = split_lf(s@);
    let ghost body = ps.drop_last().map_values(|p: Seq<char>| strip_cr(p));
    let last = pieces.len() - 1;
    let mut out: Vec<&str> = Vec::new();
    let mut i: usize = 0;
    while i < last
        invariant
            last == pieces@.len() - 1,
            ps == split_lf(s@),
            body == ps.drop_last().map_values(|p: Seq<char>| strip_cr(p)),
            pieces@.len() == ps.len(),
            forall|k: int| 0 <= k < pieces@.len() ==> #[trigger] pieces@[k]@ == ps[k],
            0 <= i <= last,
            out@.len() == i,
            forall|k: int| 0 <= k < i ==> #[trigger] out@[k]@ == body[k],
        decreases last - i,
    {
        let line = without_cr(pieces[i]);
        assert(body[i as int] == strip_cr(ps[i as int]));
        out.push(line);
        i = i + 1;
    }
    if pieces[last].unicode_len() > 0 {
        out.push(pieces[last]);
    }
    assert(lines_of(s@) == if ps.last().len() == 0 { body } else { body.push(ps.last()) });
    out
}

/// Tells whether `s` begins with `prefix`.
pub fn starts_with(s: &str, prefix: &str) -> (r: bool)
    ensures
        r == (prefix@.len() <= s@.len() && s@.subrange(0, prefix@.len() as int) == prefix@),
{
    let n = s.unicode_len();
    let m = prefix.unicode_len();
    if m > n {
        return false;
    }
    let mut i: usize = 0;
    while i < m
        invariant
            m == prefix@.len(),
            n == s@.len(),
            m <= n,
            0 <= i <= m,
            forall|k: int| 0 <= k < i ==> s@[k] == prefix@[k],
        decreases m - i,
    {
        if s.get_char(i) != prefix.get_char(i) {
            assert(s@.subrange(0, m as int)[i as int] != prefix@[i as int]);
            return false;
        }
        i = i + 1;
    }
    assert(s@.subrange(0, m as int) =~= prefix@);
    true
}

/// Joins pieces with `sep` between neighbours.
pub fn join_with(ls: &Vec<&str>, sep: &str) -> (r: String)
    ensures
        r@ == join_sep(ls@.map_values(|l: &str| l@), sep@),
{
    let ghost views = ls@.map_values(|l: &str| l@);
    let mut out = String::new();
    let mut i: usize = 0;
    while i < ls.len()
        invariant
            0 <= i <= ls@.len(),
            views == ls@.map_values(|l: &str| l@),
            out@ == join_sep(views.subrange(0, i as int), sep@),
        decreases ls@.len() - i,
    {
        let ghost pre = views.subrange(0, i as int);
        let ghost next = views.subrange(0, i + 1);
        assert(next.drop_last() =~= pre);
        assert(next.last() == ls@[i as int]@);
        if i > 0 {
            out.append(sep);
        }
        out.append(ls[i]);
        proof {
            if i == 0 {
                assert(out@ =~= next[0]);
            }
        }
        i = i + 1;
    }
    assert(views.subrange(0, ls@.len() as int) =~= views);
    out
}

/// Joins lines with one `'\n'` between neighbours.
pub fn join_lines(ls: &Vec<&str>) -> (r: String)
    ensures
        r@ == join_lf(ls@.map_values(|l: &str| l@)),
{
    proof {
        reveal_strlit("\n");
    }
    assert("\n"@ =~= seq!['\n']);
    join_with(ls, "\n")
}

} // verus!
