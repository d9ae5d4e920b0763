use crate::text::{lower_of, lowercase};
use vstd::prelude::*;

verus! {

/// `p` stands in `t` at position `i`.
pub open spec fn occurs_at(t: Seq<char>, p: Seq<char>, i: int) -> bool {
    0 <= i && i + p.len() <= t.len() && t.subrange(i, i + p.len()) == p
}

/// Splits `t[start..]` into plain and matching runs, scanning from `pos` for
/// the next occurrence of `p`, non-overlapping, left to right. Each match is
/// preceded by the (possibly empty) plain run before it; a plain run to the
/// end closes the list.
pub open spec fn spans(t: Seq<char>, p: Seq<char>, pos: int, start: int) -> Seq<(int, int, bool)>
    decreases t.len() - pos,
{
    if p.len() == 0 || pos < 0 || pos + p.len() > t.len() {
        seq![(start, t.len() as int, false)]
    } else if occurs_at(t, p, pos) {
        seq![(start, pos, false), (pos, pos + p.len(), true)] + spans(
            t,
            p,
            pos + p.len(),
            pos + p.len(),
        )
    } else {
        spans(t, p, pos + 1, start)
    }
}

/// The runs of `text` to show plain or marked, matching `input` without
/// regard to case: positions come from the lowercased texts.
pub open spec fn match_spans(text: Seq<char>, input: Seq<char>) -> Seq<(int, int, bool)> {
    spans(lower_of(text), lower_of(input), 0, 0)
}

pub open spec fn clamp(x: int, n: int) -> int {
    if x < n {
        x
    } else {
        n
    }
}

fn occurs(t: &str, p: &str, i: usize) -> (r: bool)
    requires
        i + p@.len() <= t@.len(),
        t@.len() <= usize::MAX,
    ensures
        r == occurs_at(t@, p@, i as int),
{
    let n = p.unicode_len();
    let mut j: usize = 0;
    while j < n
        invariant
            n == p@.len(),
            i + n <= t@.len(),
            t@.len() <= usize::MAX,
            j <= n,
            forall|k: int| 0 <= k < j ==> t@[i + k] == p@[k],
        decreases n - j,
    {
        if t.get_char(i + j) != p.get_char(j) {
            assert(t@.subrange(i as int, i + n)[j as int] != p@[j as int]);
            return false;
        }
        j = j + 1;
    }
    assert(t@.subrange(i as int, i + n) =~= p@);
    true
}

/// Plain and marked runs of the lowercased `text` for `input`, as
/// `(start, end, marked)` character positions.
pub fn highlight_spans(text: &str, input: &str) -> (r: Vec<(usize, usize, bool)>)
    requires
        text@.len() < usize::MAX,
    ensures
        r@.len() == match_spans(text@, input@).len(),
        forall|i: int|
            0 <= i < r@.len() ==> {
                let (a, b, m) = #[trigger] r@[i];
                &&& match_spans(text@, input@)[i] == (a as int, b as int, m)
                &&& a <= b
            },
{
    let lt = lowercase(text);
    let lp = lowercase(input);
    let r = match_runs(lt.as_str(), lp.as_str());
    proof {
        assert forall|i: int| 0 <= i < r@.len() implies {
            let (a, b, m) = #[trigger] r@[i];
            match_spans(text@, input@)[i] == (a as int, b as int, m)
        } by {
            assert(spans_of(r@)[i] == match_spans(text@, input@)[i]);
        }
    }
    r
}

/// Plain and marked runs of `t` for the pattern `p`, matched exactly, as
/// `(start, end, marked)` character positions.
pub fn match_runs(t: &str, p: &str) -> (r: Vec<(usize, usize, bool)>)
    ensures
        spans_of(r@) == spans(t@, p@, 0, 0),
        forall|i: int| 0 <= i < r@.len() ==> (#[trigger] r@[i]).0 <= r@[i].1,
{
    let tn = t.unicode_len();
    let pn = p.unicode_len();
    let ghost full = spans(t@, p@, 0, 0);
    let mut out: Vec<(usize, usize, bool)> = Vec::new();
    let mut pos: usize = 0;
    let mut start: usize = 0;
    if pn > 0 {
        while pos <= tn && pn <= tn - pos
            invariant
                tn == t@.len(),
                pn == p@.len(),
                pn > 0,
                start <= pos,
                pos <= tn,
                forall|i: int| 0 <= i < out@.len() ==> 0 <= (#[trigger] out@[i]).0 <= out@[i].1 <= tn,
                spans_of(out@) + spans(t@, p@, pos as int, start as int) == full,
            decreases tn - pos,
        {
            if occurs(t, p, pos) {
                let ghost before = out@;
                out.push((start, pos, false));
                out.push((pos, pos + pn, true));
                proof {
                    assert(spans_of(out@) =~= spans_of(before) + seq![
                        (start as int, pos as int, false),
                        (pos as int, pos + pn, true),
                    ]);
                    assert(spans_of(out@) + spans(t@, p@, pos + pn, pos + pn) =~= spans_of(
                        before,
                    ) + spans(t@, p@, pos as int, start as int));
                }
                pos = pos + pn;
                start = pos;
            } else {
                pos = pos + 1;
            }
        }
    }
    let ghost before = out@;
    out.push((start, tn, false));
    proof {
        assert(spans_of(out@) =~= spans_of(before) + seq![(start as int, tn as int, false)]);
        assert(spans_of(out@) =~= full);
    }
    out
}

/// The pieces of `text` to show plain or marked for `input`: the runs of
/// `match_spans`, cut from `text` itself (positions past its end are taken
/// as its end).
pub fn highlight_pieces(text: &str, input: &str) -> (r: Vec<(String, bool)>)
    requires
        text@.len() < usize::MAX,
    ensures
        r@.len() == match_spans(text@, input@).len(),
        forall|i: int|
            0 <= i < r@.len() ==> {
                let (a, b, m) = match_spans(text@, input@)[i];
                &&& (#[trigger] r@[i]).0@ == text@.subrange(
                    clamp(a, text@.len() as int),
                    clamp(b, text@.len() as int),
                )
                &&& r@[i].1 == m
            },
{
    let spans = highlight_spans(text, input);
    let n = text.unicode_len();
    let mut out: Vec<(String, bool)> = Vec::new();
    let mut i: usize = 0;
    while i < spans.len()
        invariant
            n == text@.len(),
            i <= spans@.len(),
            out@.len() == i,
            spans@.len() == match_spans(text@, input@).len(),
            forall|k: int|
                0 <= k < spans@.len() ==> {
                    let (a, b, m) = #[trigger] spans@[k];
                    &&& match_spans(text@, input@)[k] == (a as int, b as int, m)
                    &&& a <= b
                },
            forall|k: int|
                0 <= k < i ==> {
                    let (a, b, m) = match_spans(text@, input@)[k];
                    &&& (#[trigger] out@[k]).0@ == text@.subrange(
                        clamp(a, n as int),
                        clamp(b, n as int),
                    )
                    &&& out@[k].1 == m
                },
        decreases spans@.len() - i,
    {
        let (a, b, m) = spans[i];
        let a2 = if a < n {
            a
        } else {
            n
        };
        let b2 = if b < n {
            b
        } else {
            n
        };
        let piece = text.substring_char(a2, b2);
        out.push((String::from_str(piece), m));
        i = i + 1;
    }
    out
}

pub open spec fn spans_of(v: Seq<(usize, usize, bool)>) -> Seq<(int, int, bool)> {
    v.map_values(|s: (usize, usize, bool)| (s.0 as int, s.1 as int, s.2))
}

} // verus!
