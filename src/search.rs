//! Finding the lines of a text that contain a query.
use vstd::prelude::*;

verus! {

/// Whether `needle` occurs as a contiguous part of `hay`.
pub open spec fn occurs_in(needle: Seq<char>, hay: Seq<char>) -> bool {
    exists|i: int|
        0 <= i && i + needle.len() <= hay.len() && #[trigger] hay.subrange(i, i + needle.len())
            == needle
}

/// `line` without one carriage return at its end, if it has one.
pub open spec fn without_cr(line: Seq<char>) -> Seq<char> {
    if line.len() > 0 && line.last() == '\r' {
        line.drop_last()
    } else {
        line
    }
}

/// The lines of `s`, where `cur` is the part of the current line read so
/// far. A line ends at `'\n'`, and also at a `'\r'` just before it; a
/// final line ending is optional; a `'\r'` at the very end of `s` stays.
pub open spec fn lines_from(s: Seq<char>, cur: Seq<char>) -> Seq<Seq<char>>
    decreases s.len(),
{
    if s.len() == 0 {
        if cur.len() == 0 {
            Seq::empty()
        } else {
            seq![cur]
        }
    } else if s[0] == '\n' {
        seq![without_cr(cur)] + lines_from(s.drop_first(), Seq::empty())
    } else {
        lines_from(s.drop_first(), cur.push(s[0]))
    }
}

/// The lines of `s`, as `str::lines` yields them.
pub open spec fn lines_of(s: Seq<char>) -> Seq<Seq<char>> {
    lines_from(s, Seq::empty())
}

/// The text of each string slice of `v`, in order.
pub open spec fn texts_of(v: Seq<&str>) -> Seq<Seq<char>> {
    v.map_values(|l: &str| l@)
}

/// The test that a line contains `query`.
pub open spec fn has_query(query: Seq<char>) -> spec_fn(Seq<char>) -> bool {
    |l: Seq<char>| occurs_in(query, l)
}

/// The lines of `s` that contain `query`, in order.
pub open spec fn matching_lines(query: Seq<char>, s: Seq<char>) -> Seq<Seq<char>> {
    lines_of(s).filter(has_query(query))
}

/// Relies on `str::lines`: the lines of `s`, split at `"\n"` or `"\r\n"`,
/// without their endings, with no empty line after a final ending.
#[verifier::external_body]
fn split_lines<'a>(s: &'a str) -> (r: Vec<&'a str>)
    ensures
        texts_of(r@) == lines_of(s@),
{
    s.lines().collect()
}

/// Relies on `str::contains` with a `&str` pattern: whether `pattern`
/// occurs in `s`.
#[verifier::external_body]
fn contains_text(s: &str, pattern: &str) -> (r: bool)
    ensures
        r == occurs_in(pattern@, s@),
{
    s.contains(pattern)
}

/// The lines of `contents` that contain `query`, in the order they appear.
pub fn search<'a>(query: &str, contents: &'a str) -> (r: Vec<&'a str>)
    ensures
        texts_of(r@) == matching_lines(query@, contents@),
{
    let ghost pred = has_query(query@);
    let lines = split_lines(contents);
    let mut results: Vec<&'a str> = Vec::new();
    let mut i: usize = 0;
    while i < lines.len()
        invariant
            i <= lines@.len(),
            pred == has_query(query@),
            texts_of(lines@) == lines_of(contents@),
            texts_of(results@) == texts_of(lines@.take(i as int)).filter(pred),
        decreases lines@.len() - i,
    {
        let line = lines[i];
        proof {
            assert(texts_of(lines@.take(i + 1)) =~= texts_of(lines@.take(i as int)).push(line@));
            texts_of(lines@.take(i as int)).lemma_filter_push(line@, pred);
        }
        if contains_text(line, query) {
            let ghost before = results@;
            results.push(line);
            assert(texts_of(results@) =~= texts_of(before).push(line@));
        }
        i += 1;
    }
    assert(lines@.take(lines@.len() as int) =~= lines@);
    results
}

} // verus!
