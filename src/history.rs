use crate::text::{string_views, trim_end, trim_end_of};
use vstd::prelude::*;

verus! {

/// Past queries, most recent first, with a browsing cursor.
pub struct History {
    pub search_history: Vec<String>,
    pub index: usize,
    pub show_history_popup: bool,
}

/// Persisted lines without trailing whitespace, each kept only where it first
/// occurs.
pub open spec fn loaded_queries(lines: Seq<String>) -> Seq<Seq<char>> {
    string_views(lines).map_values(|l: Seq<char>| trim_end_of(l)).remove_duplicates(
        Seq::empty(),
    )
}

/// The persisted form of a query list: one line per query, each ended by a
/// newline.
pub open spec fn history_text(qs: Seq<Seq<char>>) -> Seq<char>
    decreases qs.len(),
{
    if qs.len() == 0 {
        Seq::empty()
    } else {
        history_text(qs.drop_last()) + qs.last() + "\n"@
    }
}

/// The cursor after moving forward among `len` entries: wraps to the first
/// after the last.
pub open spec fn next_index(index: usize, len: nat) -> usize {
    if index + 1 >= len {
        0
    } else {
        (index + 1) as usize
    }
}

/// The cursor after moving back among `len` entries: wraps to the last from
/// the first.
pub open spec fn previous_index(index: usize, len: nat) -> usize {
    if index == 0 {
        (len - 1) as usize
    } else {
        (index - 1) as usize
    }
}

/// The entry under the cursor, or nothing when the cursor is past the end.
pub open spec fn current_entry(h: History) -> Seq<char> {
    if h.index < h.search_history@.len() {
        h.search_history@[h.index as int]@
    } else {
        Seq::empty()
    }
}

/// In a sequence without duplicates, dropping the first occurrence of `q`
/// is dropping every occurrence of it.
pub proof fn lemma_remove_value_is_filter(
    s: Seq<Seq<char>>,
    q: Seq<char>,
    pred: spec_fn(Seq<char>) -> bool,
)
    requires
        s.no_duplicates(),
        forall|x: Seq<char>| #[trigger] pred(x) == (x != q),
    ensures
        s.remove_value(q) == s.filter(pred),
    decreases s.len(),
{
    reveal(Seq::filter);
    s.index_of_first_ensures(q);
    if s.len() == 0 {
        assert(s.filter(pred) == s);
    } else {
        let t = s.drop_last();
        let x = s.last();
        assert(t.no_duplicates()) by {
            assert forall|i: int, j: int|
                0 <= i < t.len() && 0 <= j < t.len() && i != j implies t[i] != t[j] by {
                assert(t[i] == s[i] && t[j] == s[j]);
            }
        }
        lemma_remove_value_is_filter(t, q, pred);
        t.index_of_first_ensures(q);
        assert(s.filter(pred) == if pred(x) {
            t.filter(pred).push(x)
        } else {
            t.filter(pred)
        });
        if x == q {
            assert(!t.contains(q)) by {
                if t.contains(q) {
                    let i = choose|i: int| 0 <= i < t.len() && t[i] == q;
                    assert(s[i] == s[s.len() - 1]);
                }
            }
            assert(s[s.len() - 1] == q);
            let k = s.index_of_first(q)->0;
            assert(k == s.len() - 1) by {
                if k < s.len() - 1 {
                    assert(t[k] == s[k]);
                }
            }
            assert(s.remove(k) =~= t);
        } else if t.contains(q) {
            let i = t.index_of_first(q)->0;
            assert(s[i] == t[i]);
            let k = s.index_of_first(q)->0;
            assert(k == i) by {
                if k < i {
                    assert(t[k] == s[k]);
                }
                if k > i {
                    assert(s[i] == q);
                }
            }
            assert(s.remove(k) =~= t.remove(i).push(x));
        } else {
            assert(!s.contains(q)) by {
                if s.contains(q) {
                    let i = choose|i: int| 0 <= i < s.len() && s[i] == q;
                    if i < s.len() - 1 {
                        assert(t[i] == s[i]);
                    }
                }
            }
            assert(t.push(x) =~= s);
        }
    }
}

fn contains_query(v: &Vec<String>, s: &String) -> (r: bool)
    ensures
        r == string_views(v@).contains(s@),
{
    let n = v.len();
    let mut i: usize = 0;
    while i < n
        invariant
            n == v@.len(),
            i <= n,
            forall|j: int| 0 <= j < i ==> string_views(v@)[j] != s@,
        decreases n - i,
    {
        assert(string_views(v@)[i as int] == v@[i as int]@);
        if v[i].eq(s) {
            return true;
        }
        i = i + 1;
    }
    false
}

impl History {
    /// The stored queries as character sequences.
    pub open spec fn queries(&self) -> Seq<Seq<char>> {
        string_views(self.search_history@)
    }

    /// No query is stored twice, and the cursor points at an entry (or is 0 when
    /// there is none).
    pub open spec fn wf(&self) -> bool {
        &&& self.queries().no_duplicates()
        &&& (self.index < self.search_history@.len() || (self.search_history@.len() == 0
            && self.index == 0))
    }

    /// A store built from previously persisted queries, cursor at the front,
    /// not browsing.
    pub fn new(search_history: Vec<String>) -> (r: History)
        ensures
            r.search_history@ == search_history@,
            r.index == 0,
            !r.show_history_popup,
    {
        History { search_history, index: 0, show_history_popup: false }
    }

    /// A store built from the lines of a persisted history file: trailing
    /// whitespace is dropped and a line that repeats an earlier one is skipped.
    pub fn from_lines(lines: Vec<String>) -> (r: History)
        ensures
            r.queries() == loaded_queries(lines@),
            r.index == 0,
            !r.show_history_popup,
            r.wf(),
    {
        let ghost t = string_views(lines@).map_values(|l: Seq<char>| trim_end_of(l));
        let mut out: Vec<String> = Vec::new();
        let n = lines.len();
        let mut i: usize = 0;
        proof {
            assert(t.skip(0) =~= t);
            assert(string_views(out@) =~= Seq::<Seq<char>>::empty());
        }
        while i < n
            invariant
                n == lines@.len(),
                i <= n,
                t == string_views(lines@).map_values(|l: Seq<char>| trim_end_of(l)),
                t.remove_duplicates(Seq::empty()) == t.skip(i as int).remove_duplicates(
                    string_views(out@),
                ),
                string_views(out@).no_duplicates(),
            decreases n - i,
        {
            let q = trim_end(lines[i].as_str());
            let ghost seen = string_views(out@);
            proof {
                assert(t[i as int] == q@);
                assert(t.skip(i as int).skip(1) =~= t.skip(i as int + 1));
                assert(t.skip(i as int)[0] == q@);
            }
            if !contains_query(&out, &q) {
                out.push(q);
                assert(string_views(out@) =~= seen + seq![t[i as int]]);
            }
            i = i + 1;
        }
        proof {
            assert(t.skip(n as int) =~= Seq::<Seq<char>>::empty());
        }
        History { search_history: out, index: 0, show_history_popup: false }
    }

    /// The text of the persisted history file.
    pub fn to_text(&self) -> (r: String)
        ensures
            r@ == history_text(self.queries()),
    {
        let ghost g = self.queries();
        let mut text = String::new();
        let n = self.search_history.len();
        let mut i: usize = 0;
        while i < n
            invariant
                n == self.search_history@.len(),
                g == self.queries(),
                i <= n,
                text@ == history_text(g.subrange(0, i as int)),
            decreases n - i,
        {
            text.append(self.search_history[i].as_str());
            text.append("\n");
            proof {
                let s1 = g.subrange(0, i as int + 1);
                assert(s1.drop_last() =~= g.subrange(0, i as int));
                assert(s1.last() == self.search_history@[i as int]@);
            }
            i = i + 1;
        }
        assert(g.subrange(0, n as int) =~= g);
        text
    }

    /// Moves `query` to the front (dropping its earlier occurrence), resets the
    /// cursor and closes browsing.
    pub fn add_query(&mut self, query: String)
        ensures
            final(self).queries() == seq![query@] + old(self).queries().remove_value(query@),
            old(self).wf() ==> final(self).queries() == seq![query@] + old(self).queries().filter(
                |x: Seq<char>| x != query@,
            ),
            final(self).index == 0,
            !final(self).show_history_popup,
            old(self).wf() ==> final(self).wf(),
    {
        let ghost q = query@;
        let ghost before = self.queries();
        proof {
            if old(self).wf() {
                lemma_remove_value_is_filter(before, q, |x: Seq<char>| x != query@);
            }
        }
        let n = self.search_history.len();
        let mut pos: usize = 0;
        while pos < n
            invariant
                n == self.search_history@.len(),
                q == query@,
                self.queries() == before,
                pos <= n,
                forall|j: int| 0 <= j < pos ==> before[j] != q,
            ensures
                pos <= n,
                pos < n ==> before[pos as int] == q,
                forall|j: int| 0 <= j < pos ==> before[j] != q,
            decreases n - pos,
        {
            assert(before[pos as int] == self.search_history@[pos as int]@);
            let same: bool = self.search_history[pos].eq(&query);
            if same {
                break;
            }
            pos = pos + 1;
        }
        proof {
            before.index_of_first_ensures(q);
        }
        if pos < n {
            proof {
                assert(before[pos as int] == q);
                assert(before.index_of_first(q) == Some(pos as int));
            }
            self.search_history.remove(pos);
            assert(self.queries() =~= before.remove(pos as int));
        } else {
            proof {
                assert(!before.contains(q));
            }
            assert(self.queries() =~= before);
        }
        let ghost mid = self.queries();
        self.search_history.insert(0, query);
        assert(self.queries() =~= seq![q] + mid);
        self.index = 0;
        self.show_history_popup = false;
        proof {
            if old(self).wf() {
                assert(!mid.contains(q));
                assert(mid.no_duplicates());
                assert(self.queries().no_duplicates()) by {
                    let s = self.queries();
                    assert forall|i: int, j: int|
                        0 <= i < s.len() && 0 <= j < s.len() && i != j implies s[i] != s[j] by {
                        if i > 0 && j > 0 {
                            assert(s[i] == mid[i - 1] && s[j] == mid[j - 1]);
                        } else if i == 0 {
                            assert(s[j] == mid[j - 1]);
                        } else {
                            assert(s[i] == mid[i - 1]);
                        }
                    }
                }
            }
        }
    }

    /// Advances the cursor, wrapping from the last entry to the first, and opens
    /// browsing. Does nothing on an empty store.
    pub fn next(&mut self)
        ensures
            final(self).search_history == old(self).search_history,
            old(self).search_history@.len() == 0 ==> *final(self) == *old(self),
            old(self).search_history@.len() > 0 ==> {
                &&& final(self).index == next_index(old(self).index, old(self).search_history@.len())
                &&& final(self).show_history_popup
            },
            old(self).wf() ==> final(self).wf(),
    {
        if self.search_history.is_empty() {
            return ;
        }
        self.index = if self.index >= self.search_history.len() - 1 {
            0
        } else {
            self.index + 1
        };
        self.show_history_popup = true;
    }

    /// Moves the cursor back, wrapping from the first entry to the last, and
    /// opens browsing. Does nothing on an empty store.
    pub fn previous(&mut self)
        ensures
            final(self).search_history == old(self).search_history,
            old(self).search_history@.len() == 0 ==> *final(self) == *old(self),
            old(self).search_history@.len() > 0 ==> {
                &&& final(self).index == previous_index(
                    old(self).index,
                    old(self).search_history@.len(),
                )
                &&& final(self).show_history_popup
            },
            old(self).wf() ==> final(self).wf(),
    {
        if self.search_history.is_empty() {
            return ;
        }
        self.index = if self.index == 0 {
            self.search_history.len() - 1
        } else {
            self.index - 1
        };
        self.show_history_popup = true;
    }

    /// The query under the cursor, or the empty string when there is none.
    pub fn get_current(&self) -> (r: &str)
        ensures
            r@ == (if self.index < self.search_history@.len() {
                self.search_history@[self.index as int]@
            } else {
                Seq::empty()
            }),
    {
        if self.index < self.search_history.len() {
            self.search_history[self.index].as_str()
        } else {
            proof {
                reveal_strlit("");
            }
            ""
        }
    }

    /// All stored queries, most recent first.
    pub fn get_queries(&self) -> (r: &[String])
        ensures
            r@ == self.search_history@,
    {
        self.search_history.as_slice()
    }
}

} // verus!
