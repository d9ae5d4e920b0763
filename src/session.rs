use crate::cache::{after_lookup, lookup, Cache};
use crate::history::{next_index, previous_index, History};
use crate::record::{clone_results, QueryArgs, QueryResult};
use crate::text::{
    char_string, flatten, grapheme_count, grapheme_offset, is_ws,
    lemma_blank_trims_to_empty, lemma_flatten_concat, normalize_query, normalized,
    split_graphemes, string_views, trim_end, trim_end_of, trim_of, StringExt,
};
use vstd::prelude::*;

verus! {

/// Whether keystrokes edit the query or drive the result list.
#[derive(PartialEq, Eq, Structural, Debug, Clone, Copy)]
pub enum InputMode {
    Normal,
    Editing,
}

/// Which screen the session shows.
#[derive(PartialEq, Eq, Structural, Debug, Clone, Copy)]
pub enum DisplayMode {
    Home,
    Searching,
    Ready,
}

/// What the caller has to do to finish a submission.
pub enum SubmitStep {
    /// The query was blank: nothing happened.
    Skipped,
    /// The cache answered: pause briefly, then hand these to `finish_cached`.
    Cached(Vec<QueryResult>),
    /// The cache missed: ask the provider, then hand its outcome to `finish_fetch`.
    Fetch(QueryArgs),
}

/// The state of one interactive session.
pub struct App {
    pub input: String,
    /// Cursor position in the input, in grapheme clusters.
    pub cursor_idx: usize,
    pub input_mode: InputMode,
    pub messages: Vec<QueryResult>,
    pub selected_idx: usize,
    /// Highlighted row of the result list.
    pub results_selected: Option<usize>,
    /// Highlighted row of the history popup.
    pub history_selected: Option<usize>,
    pub debug_mode: bool,
    pub has_entered: bool,
    pub is_loading: bool,
    pub error_message: Option<String>,
    pub display_mode: DisplayMode,
    pub spinner_frames: Vec<char>,
    pub spinner_index: usize,
    pub should_quit: bool,
    pub cache: Cache,
    pub history: History,
    /// The shown results came from the cache.
    pub cache_hit: bool,
    pub enable_cache_hit_notification: bool,
}

/// The input text and its cursor agree.
pub open spec fn same_input(a: &App, b: &App) -> bool {
    &&& a.input@ == b.input@
    &&& a.cursor_idx == b.cursor_idx
}

/// The outcome of the last search agrees.
pub open spec fn same_results(a: &App, b: &App) -> bool {
    &&& a.messages@ == b.messages@
    &&& a.selected_idx == b.selected_idx
    &&& a.results_selected == b.results_selected
    &&& a.error_message == b.error_message
    &&& a.display_mode == b.display_mode
    &&& a.is_loading == b.is_loading
    &&& a.has_entered == b.has_entered
    &&& a.cache_hit == b.cache_hit
}

/// The two stores agree.
pub open spec fn same_stores(a: &App, b: &App) -> bool {
    &&& a.cache@ == b.cache@
    &&& a.cache.wf() == b.cache.wf()
    &&& a.history.search_history@ == b.history.search_history@
    &&& a.history.index == b.history.index
    &&& a.history.show_history_popup == b.history.show_history_popup
}

/// The spinner agrees.
pub open spec fn same_spinner(a: &App, b: &App) -> bool {
    &&& a.spinner_frames@ == b.spinner_frames@
    &&& a.spinner_index == b.spinner_index
}

/// The remaining switches agree, the input mode aside.
pub open spec fn same_switches(a: &App, b: &App) -> bool {
    &&& a.debug_mode == b.debug_mode
    &&& a.enable_cache_hit_notification == b.enable_cache_hit_notification
    &&& a.should_quit == b.should_quit
    &&& a.history_selected == b.history_selected
}

/// The remaining switches agree.
pub open spec fn same_flags(a: &App, b: &App) -> bool {
    &&& a.input_mode == b.input_mode
    &&& same_switches(a, b)
    &&& same_spinner(a, b)
}

/// Where an edit takes effect: the cursor, clamped to the input's length.
pub open spec fn edit_point(a: &App) -> int {
    let n = grapheme_count(a.input@) as int;
    if (a.cursor_idx as int) < n {
        a.cursor_idx as int
    } else {
        n
    }
}

pub open spec fn min_int(a: int, b: int) -> int {
    if a < b {
        a
    } else {
        b
    }
}

/// The row that moving down selects among `n > 0` rows: the next one, wrapping
/// to the first after the last (or from past the end); the first when nothing
/// was selected.
pub open spec fn next_selection(sel: Option<usize>, n: nat) -> usize {
    match sel {
        Some(j) => if j + 1 >= n {
            0
        } else {
            (j + 1) as usize
        },
        None => 0,
    }
}

/// The row that moving up selects among `n > 0` rows: the previous one,
/// wrapping to the last from the first; the last when the selection lies past
/// the end; the first when nothing was selected.
pub open spec fn previous_selection(sel: Option<usize>, n: nat) -> usize {
    match sel {
        Some(j) => if j == 0 || j > n {
            (n - 1) as usize
        } else {
            (j - 1) as usize
        },
        None => 0,
    }
}

/// Appends the grapheme clusters `gs[lo..hi]` to `out`.
fn append_range(gs: &Vec<String>, lo: usize, hi: usize, out: &mut String)
    requires
        lo <= hi <= gs@.len(),
    ensures
        final(out)@ == old(out)@ + flatten(string_views(gs@).subrange(lo as int, hi as int)),
{
    let ghost start = out@;
    let ghost g = string_views(gs@);
    let mut i: usize = lo;
    while i < hi
        invariant
            lo <= i <= hi,
            hi <= gs@.len(),
            g == string_views(gs@),
            out@ == start + flatten(g.subrange(lo as int, i as int)),
        decreases hi - i,
    {
        let ghost before = out@;
        out.append(gs[i].as_str());
        proof {
            let s1 = g.subrange(lo as int, i as int + 1);
            assert(s1.drop_last() =~= g.subrange(lo as int, i as int));
            assert(s1.last() == gs@[i as int]@);
            assert(out@ =~= start + flatten(s1));
        }
        i = i + 1;
    }
}

/// The clusters before `k` and those from `k` on make up the string again.
proof fn lemma_split_at_cluster(s: Seq<char>, g: Seq<Seq<char>>, k: int)
    requires
        flatten(g) == s,
        0 <= k <= g.len(),
    ensures
        flatten(g.subrange(0, k)) + flatten(g.subrange(k, g.len() as int)) == s,
        flatten(g.subrange(0, k)) == s.take(flatten(g.subrange(0, k)).len() as int),
        flatten(g.subrange(k, g.len() as int)) == s.skip(flatten(g.subrange(0, k)).len() as int),
{
    lemma_flatten_concat(g.subrange(0, k), g.subrange(k, g.len() as int));
    assert(g.subrange(0, k) + g.subrange(k, g.len() as int) =~= g);
    let a = flatten(g.subrange(0, k));
    let b = flatten(g.subrange(k, g.len() as int));
    assert(s.take(a.len() as int) =~= a);
    assert(s.skip(a.len() as int) =~= b);
}

impl App {
    /// The stores are well formed and the cursor lies within the input.
    pub open spec fn wf(&self) -> bool {
        &&& self.cache.wf()
        &&& self.history.wf()
        &&& self.cursor_idx <= grapheme_count(self.input@)
    }

    /// A fresh session over loaded stores: empty input in editing mode, home
    /// screen, no results, no error.
    pub fn new(history: History, cache: Cache) -> (r: App)
        requires
            history.wf(),
            cache.wf(),
        ensures
            r.wf(),
            r.input@.len() == 0,
            r.cursor_idx == 0,
            r.input_mode == InputMode::Editing,
            r.messages@.len() == 0,
            r.selected_idx == 0,
            r.results_selected is None,
            r.history_selected is None,
            !r.debug_mode,
            !r.has_entered,
            !r.is_loading,
            r.error_message is None,
            r.display_mode == DisplayMode::Home,
            r.spinner_frames@ == seq!['|', '/', '-', '\\'],
            r.spinner_index == 0,
            !r.should_quit,
            r.cache == cache,
            r.history == history,
            !r.cache_hit,
            r.enable_cache_hit_notification,
    {
        App {
            input: String::new(),
            cursor_idx: 0,
            input_mode: InputMode::Editing,
            messages: Vec::new(),
            selected_idx: 0,
            results_selected: None,
            history_selected: None,
            debug_mode: false,
            has_entered: false,
            is_loading: false,
            error_message: None,
            display_mode: DisplayMode::Home,
            spinner_frames: vec!['|', '/', '-', '\\'],
            spinner_index: 0,
            should_quit: false,
            cache,
            history,
            cache_hit: false,
            enable_cache_hit_notification: true,
        }
    }

    /// Moves the cursor one cluster to the left, stopping at the start.
    pub fn move_cursor_left(&mut self)
        ensures
            final(self).cursor_idx == (if old(self).cursor_idx > 0 {
                old(self).cursor_idx - 1
            } else {
                0
            }),
            final(self).input@ == old(self).input@,
            same_results(final(self), old(self)),
            same_stores(final(self), old(self)),
            same_flags(final(self), old(self)),
            old(self).wf() ==> final(self).wf(),
    {
        if self.cursor_idx > 0 {
            self.cursor_idx -= 1;
        }
    }

    /// Moves the cursor one cluster to the right, stopping at the end.
    pub fn move_cursor_right(&mut self)
        ensures
            final(self).cursor_idx == (if old(self).cursor_idx < grapheme_count(old(self).input@) {
                old(self).cursor_idx + 1
            } else {
                old(self).cursor_idx as int
            }),
            final(self).input@ == old(self).input@,
            same_results(final(self), old(self)),
            same_stores(final(self), old(self)),
            same_flags(final(self), old(self)),
            old(self).wf() ==> final(self).wf(),
    {
        if self.cursor_idx < self.input.grapheme_len() {
            self.cursor_idx += 1;
        }
    }

    /// Inserts `c` at the cursor and moves the cursor past it; clears the
    /// cache-hit badge.
    pub fn insert_char(&mut self, c: char)
        ensures
            ({
                let off = grapheme_offset(old(self).input@, edit_point(old(self)));
                final(self).input@ == old(self).input@.take(off) + seq![c] + old(self).input@.skip(
                    off,
                )
            }),
            final(self).cursor_idx == min_int(
                edit_point(old(self)) + 1,
                grapheme_count(final(self).input@) as int,
            ),
            !final(self).cache_hit,
            final(self).messages@ == old(self).messages@,
            final(self).selected_idx == old(self).selected_idx,
            final(self).results_selected == old(self).results_selected,
            final(self).error_message == old(self).error_message,
            final(self).display_mode == old(self).display_mode,
            final(self).is_loading == old(self).is_loading,
            final(self).has_entered == old(self).has_entered,
            same_stores(final(self), old(self)),
            same_flags(final(self), old(self)),
            old(self).wf() ==> final(self).wf(),
    {
        self.cache_hit = false;
        let gs = split_graphemes(self.input.as_str());
        let ghost g = string_views(gs@);
        let n = gs.len();
        let k = if self.cursor_idx < n {
            self.cursor_idx
        } else {
            n
        };
        let mut out = String::new();
        append_range(&gs, 0, k, &mut out);
        let cs = char_string(c);
        out.append(cs.as_str());
        append_range(&gs, k, n, &mut out);
        proof {
            lemma_split_at_cluster(self.input@, g, k as int);
            assert(g.subrange(0, n as int) =~= g);
            assert(out@ =~= self.input@.take(grapheme_offset(self.input@, k as int)) + seq![c]
                + self.input@.skip(grapheme_offset(self.input@, k as int)));
        }
        self.input = out;
        let len = self.input.grapheme_len();
        self.cursor_idx = if k < len {
            k + 1
        } else {
            len
        };
    }

    /// Removes the cluster before the cursor and moves the cursor onto its
    /// place; clears the cache-hit badge. At the start of the input only the
    /// badge is cleared.
    pub fn delete_char(&mut self)
        ensures
            edit_point(old(self)) == 0 ==> same_input(final(self), old(self)),
            edit_point(old(self)) > 0 ==> {
                let k = edit_point(old(self));
                &&& final(self).input@ == old(self).input@.take(
                    grapheme_offset(old(self).input@, k - 1),
                ) + old(self).input@.skip(grapheme_offset(old(self).input@, k))
                &&& final(self).cursor_idx == min_int(
                    k - 1,
                    grapheme_count(final(self).input@) as int,
                )
            },
            !final(self).cache_hit,
            final(self).messages@ == old(self).messages@,
            final(self).selected_idx == old(self).selected_idx,
            final(self).results_selected == old(self).results_selected,
            final(self).error_message == old(self).error_message,
            final(self).display_mode == old(self).display_mode,
            final(self).is_loading == old(self).is_loading,
            final(self).has_entered == old(self).has_entered,
            same_stores(final(self), old(self)),
            same_flags(final(self), old(self)),
            old(self).wf() ==> final(self).wf(),
    {
        self.cache_hit = false;
        let gs = split_graphemes(self.input.as_str());
        let ghost g = string_views(gs@);
        let n = gs.len();
        let k = if self.cursor_idx < n {
            self.cursor_idx
        } else {
            n
        };
        if k > 0 {
            let mut out = String::new();
            append_range(&gs, 0, k - 1, &mut out);
            append_range(&gs, k, n, &mut out);
            proof {
                lemma_split_at_cluster(self.input@, g, k - 1);
                lemma_split_at_cluster(self.input@, g, k as int);
                assert(g.subrange(0, n as int) =~= g);
                assert(out@ =~= self.input@.take(grapheme_offset(self.input@, k - 1))
                    + self.input@.skip(grapheme_offset(self.input@, k as int)));
            }
            self.input = out;
            let len = self.input.grapheme_len();
            self.cursor_idx = if k - 1 < len {
                k - 1
            } else {
                len
            };
        }
    }

    /// Moves the result selection down, wrapping from the last row to the
    /// first; with nothing selected yet it selects the first row. Does nothing
    /// without results.
    pub fn next_result(&mut self)
        ensures
            old(self).messages@.len() == 0 ==> *final(self) == *old(self),
            old(self).messages@.len() > 0 ==> {
                let i = next_selection(old(self).results_selected, old(self).messages@.len());
                &&& final(self).results_selected == Some(i)
                &&& final(self).selected_idx == i
                &&& i < final(self).messages@.len()
            },
            same_input(final(self), old(self)),
            final(self).messages@ == old(self).messages@,
            final(self).error_message == old(self).error_message,
            final(self).display_mode == old(self).display_mode,
            final(self).is_loading == old(self).is_loading,
            final(self).has_entered == old(self).has_entered,
            final(self).cache_hit == old(self).cache_hit,
            same_stores(final(self), old(self)),
            same_flags(final(self), old(self)),
            old(self).wf() ==> final(self).wf(),
    {
        if self.messages.is_empty() {
            return ;
        }
        let i = match self.results_selected {
            Some(i) => {
                if i >= self.messages.len() - 1 {
                    0
                } else {
                    i + 1
                }
            },
            None => 0,
        };
        self.results_selected = Some(i);
        self.selected_idx = i;
    }

    /// Moves the result selection up, wrapping from the first row to the last;
    /// with nothing selected yet it selects the first row, and a selection left
    /// past the end of a shorter list lands on the last row. Does nothing
    /// without results.
    pub fn previous_result(&mut self)
        ensures
            old(self).messages@.len() == 0 ==> *final(self) == *old(self),
            old(self).messages@.len() > 0 ==> {
                let i = previous_selection(old(self).results_selected, old(self).messages@.len());
                &&& final(self).results_selected == Some(i)
                &&& final(self).selected_idx == i
                &&& i < final(self).messages@.len()
            },
            same_input(final(self), old(self)),
            final(self).messages@ == old(self).messages@,
            final(self).error_message == old(self).error_message,
            final(self).display_mode == old(self).display_mode,
            final(self).is_loading == old(self).is_loading,
            final(self).has_entered == old(self).has_entered,
            final(self).cache_hit == old(self).cache_hit,
            same_stores(final(self), old(self)),
            same_flags(final(self), old(self)),
            old(self).wf() ==> final(self).wf(),
    {
        if self.messages.is_empty() {
            return ;
        }
        let i = match self.results_selected {
            Some(i) => {
                if i == 0 || i > self.messages.len() {
                    self.messages.len() - 1
                } else {
                    i - 1
                }
            },
            None => 0,
        };
        self.results_selected = Some(i);
        self.selected_idx = i;
    }

    /// Starts a submission of the typed query. A blank query changes nothing. Otherwise the query goes to the front of the
    /// history, the session shows the searching screen, and the cache is
    /// consulted at time `now`: a hit hands back the stored results, a miss
    /// clears the shown results and error and asks for a fetch.
    pub fn submit(&mut self, now: u64) -> (r: SubmitStep)
        requires
            old(self).wf(),
        ensures
            final(self).wf(),
            ({
                let q = normalized(old(self).input@);
                if trim_of(old(self).input@).len() == 0 {
                    &&& r is Skipped
                    &&& *final(self) == *old(self)
                } else {
                    &&& final(self).history.queries() == seq![q] + old(
                        self,
                    ).history.queries().remove_value(q)
                    &&& final(self).history.index == 0
                    &&& !final(self).history.show_history_popup
                    &&& final(self).display_mode == DisplayMode::Searching
                    &&& final(self).is_loading
                    &&& final(self).cache@ == after_lookup(old(self).cache@, q, now)
                    &&& match lookup(old(self).cache@, q, now) {
                        Some(rs) => {
                            &&& r matches SubmitStep::Cached(v) && v@ == rs
                            &&& final(self).messages@ == old(self).messages@
                            &&& final(self).error_message == old(self).error_message
                            &&& final(self).cache_hit == old(self).cache_hit
                        },
                        None => {
                            &&& r matches SubmitStep::Fetch(args) && args.query@ == q
                                && args.debug_mode == old(self).debug_mode
                            &&& final(self).messages@.len() == 0
                            &&& final(self).error_message is None
                            &&& !final(self).cache_hit
                        },
                    }
                    &&& final(self).selected_idx == old(self).selected_idx
                    &&& final(self).results_selected == old(self).results_selected
                    &&& final(self).has_entered == old(self).has_entered
                    &&& same_input(final(self), old(self))
                    &&& same_flags(final(self), old(self))
                }
            }),
            (forall|i: int|
                0 <= i < old(self).input@.len() ==> is_ws(#[trigger] old(self).input@[i]))
                ==> *final(self) == *old(self),
    {
        proof {
            if forall|i: int|
                0 <= i < old(self).input@.len() ==> is_ws(#[trigger] old(self).input@[i]) {
                lemma_blank_trims_to_empty(self.input@);
            }
        }
        let query = normalize_query(self.input.as_str());
        if query.as_str().unicode_len() == 0 {
            return SubmitStep::Skipped;
        }
        self.history.add_query(query.clone());
        self.display_mode = DisplayMode::Searching;
        self.is_loading = true;
        match self.cache.get(query.as_str(), now) {
            Some(cached) => SubmitStep::Cached(cached),
            None => {
                self.cache_hit = false;
                self.messages = Vec::new();
                self.error_message = None;
                SubmitStep::Fetch(QueryArgs { query, debug_mode: self.debug_mode })
            },
        }
    }

    /// Shows results that the cache answered with: no error, badge on, ready.
    pub fn finish_cached(&mut self, results: Vec<QueryResult>)
        ensures
            final(self).messages@ == results@,
            final(self).error_message is None,
            !final(self).is_loading,
            final(self).cache_hit,
            final(self).display_mode == DisplayMode::Ready,
            final(self).selected_idx == old(self).selected_idx,
            final(self).results_selected == old(self).results_selected,
            final(self).has_entered == old(self).has_entered,
            same_input(final(self), old(self)),
            same_stores(final(self), old(self)),
            same_flags(final(self), old(self)),
            old(self).wf() ==> final(self).wf(),
    {
        self.messages = results;
        self.error_message = None;
        self.is_loading = false;
        self.cache_hit = true;
        self.display_mode = DisplayMode::Ready;
    }

    /// Completes a fetch of `query` at time `now`. Fetched results are shown
    /// and written through to the cache; a failure's description becomes the
    /// error and the cache is left alone. Either way the session is ready,
    /// not loading, and shows no cache badge.
    pub fn finish_fetch(&mut self, query: String, outcome: Result<Vec<QueryResult>, String>, now: u64)
        requires
            old(self).wf(),
        ensures
            final(self).wf(),
            match outcome {
                Ok(rs) => {
                    &&& final(self).messages@ == rs@
                    &&& final(self).cache@ == old(self).cache@.insert(query@, (rs@, now))
                    &&& final(self).error_message == old(self).error_message
                },
                Err(d) => {
                    &&& final(self).messages@ == old(self).messages@
                    &&& final(self).cache@ == old(self).cache@
                    &&& final(self).error_message == Some(d)
                },
            },
            !final(self).is_loading,
            !final(self).cache_hit,
            final(self).display_mode == DisplayMode::Ready,
            final(self).selected_idx == old(self).selected_idx,
            final(self).results_selected == old(self).results_selected,
            final(self).has_entered == old(self).has_entered,
            final(self).history == old(self).history,
            same_input(final(self), old(self)),
            same_flags(final(self), old(self)),
    {
        match outcome {
            Ok(results) => {
                self.messages = clone_results(&results);
                self.cache.insert(query, results, now);
            },
            Err(description) => {
                self.error_message = Some(description);
            },
        }
        self.is_loading = false;
        self.cache_hit = false;
        self.display_mode = DisplayMode::Ready;
    }
    /// Moves the history cursor forward (wrapping) and highlights that row.
    pub fn next_history(&mut self)
        ensures
            final(self).history.search_history@ == old(self).history.search_history@,
            old(self).history.search_history@.len() > 0 ==> {
                &&& final(self).history.index == next_index(
                    old(self).history.index,
                    old(self).history.search_history@.len(),
                )
                &&& final(self).history.show_history_popup
            },
            old(self).history.search_history@.len() == 0 ==> final(self).history == old(
                self,
            ).history,
            final(self).history_selected == Some(final(self).history.index),
            final(self).cache == old(self).cache,
            same_input(final(self), old(self)),
            same_results(final(self), old(self)),
            final(self).input_mode == old(self).input_mode,
            final(self).debug_mode == old(self).debug_mode,
            final(self).enable_cache_hit_notification == old(self).enable_cache_hit_notification,
            final(self).should_quit == old(self).should_quit,
            same_spinner(final(self), old(self)),
            old(self).wf() ==> final(self).wf(),
    {
        self.history.next();
        self.history_selected = Some(self.history.index);
    }

    /// Moves the history cursor back (wrapping) and highlights that row.
    pub fn previous_history(&mut self)
        ensures
            final(self).history.search_history@ == old(self).history.search_history@,
            old(self).history.search_history@.len() > 0 ==> {
                &&& final(self).history.index == previous_index(
                    old(self).history.index,
                    old(self).history.search_history@.len(),
                )
                &&& final(self).history.show_history_popup
            },
            old(self).history.search_history@.len() == 0 ==> final(self).history == old(
                self,
            ).history,
            final(self).history_selected == Some(final(self).history.index),
            final(self).cache == old(self).cache,
            same_input(final(self), old(self)),
            same_results(final(self), old(self)),
            final(self).input_mode == old(self).input_mode,
            final(self).debug_mode == old(self).debug_mode,
            final(self).enable_cache_hit_notification == old(self).enable_cache_hit_notification,
            final(self).should_quit == old(self).should_quit,
            same_spinner(final(self), old(self)),
            old(self).wf() ==> final(self).wf(),
    {
        self.history.previous();
        self.history_selected = Some(self.history.index);
    }

    /// Replaces the input by the history entry under the cursor (without
    /// trailing whitespace) and puts the cursor at its end.
    pub fn set_input_to_history(&mut self)
        ensures
            final(self).input@ == trim_end_of(
                if old(self).history.index < old(self).history.search_history@.len() {
                    old(self).history.search_history@[old(self).history.index as int]@
                } else {
                    Seq::empty()
                },
            ),
            final(self).cursor_idx == grapheme_count(final(self).input@),
            same_results(final(self), old(self)),
            same_stores(final(self), old(self)),
            same_flags(final(self), old(self)),
            old(self).wf() ==> final(self).wf(),
    {
        self.input = trim_end(self.history.get_current());
        self.cursor_idx = self.input.grapheme_len();
    }

    /// Starts over: empty input with the cursor at 0, no badge, nothing
    /// submitted, home screen, editing.
    pub fn clear_input(&mut self)
        ensures
            final(self).input@.len() == 0,
            final(self).cursor_idx == 0,
            !final(self).cache_hit,
            !final(self).has_entered,
            final(self).display_mode == DisplayMode::Home,
            final(self).input_mode == InputMode::Editing,
            final(self).messages@ == old(self).messages@,
            final(self).selected_idx == old(self).selected_idx,
            final(self).results_selected == old(self).results_selected,
            final(self).error_message == old(self).error_message,
            final(self).is_loading == old(self).is_loading,
            final(self).debug_mode == old(self).debug_mode,
            final(self).enable_cache_hit_notification == old(self).enable_cache_hit_notification,
            final(self).should_quit == old(self).should_quit,
            final(self).history_selected == old(self).history_selected,
            same_stores(final(self), old(self)),
            same_spinner(final(self), old(self)),
            old(self).wf() ==> final(self).wf(),
    {
        self.input = String::new();
        self.cursor_idx = 0;
        self.cache_hit = false;
        self.has_entered = false;
        self.display_mode = DisplayMode::Home;
        self.input_mode = InputMode::Editing;
    }

    /// The URL of the selected result, if the selection points at one.
    pub fn url_to_open(&self) -> (r: Option<&String>)
        ensures
            match r {
                Some(u) => self.selected_idx < self.messages@.len() && *u
                    == self.messages@[self.selected_idx as int].url,
                None => self.selected_idx >= self.messages@.len(),
            },
    {
        if self.selected_idx < self.messages.len() {
            Some(&self.messages[self.selected_idx].url)
        } else {
            None
        }
    }

    /// Records that the viewer could not open the selected result.
    pub fn report_open_failure(&mut self, description: &str)
        ensures
            final(self).error_message matches Some(e) && e@ == "Error opening URL: "@
                + description@,
            final(self).messages@ == old(self).messages@,
            final(self).selected_idx == old(self).selected_idx,
            final(self).results_selected == old(self).results_selected,
            final(self).display_mode == old(self).display_mode,
            final(self).is_loading == old(self).is_loading,
            final(self).has_entered == old(self).has_entered,
            final(self).cache_hit == old(self).cache_hit,
            same_input(final(self), old(self)),
            same_stores(final(self), old(self)),
            same_flags(final(self), old(self)),
            old(self).wf() ==> final(self).wf(),
    {
        let mut e = String::from_str("Error opening URL: ");
        e.append(description);
        self.error_message = Some(e);
    }

    /// Flips whether the provider is asked to dump its raw response.
    pub fn toggle_debug_mode(&mut self)
        ensures
            final(self).debug_mode == !old(self).debug_mode,
            final(self).enable_cache_hit_notification == old(self).enable_cache_hit_notification,
            final(self).input_mode == old(self).input_mode,
            same_input(final(self), old(self)),
            same_results(final(self), old(self)),
            same_stores(final(self), old(self)),
            final(self).should_quit == old(self).should_quit,
            final(self).history_selected == old(self).history_selected,
            same_spinner(final(self), old(self)),
            old(self).wf() ==> final(self).wf(),
    {
        self.debug_mode = !self.debug_mode;
    }

    /// Flips whether a cache hit is announced.
    pub fn toggle_cache_notification(&mut self)
        ensures
            final(self).enable_cache_hit_notification == !old(
                self,
            ).enable_cache_hit_notification,
            final(self).debug_mode == old(self).debug_mode,
            final(self).input_mode == old(self).input_mode,
            same_input(final(self), old(self)),
            same_results(final(self), old(self)),
            same_stores(final(self), old(self)),
            final(self).should_quit == old(self).should_quit,
            final(self).history_selected == old(self).history_selected,
            same_spinner(final(self), old(self)),
            old(self).wf() ==> final(self).wf(),
    {
        self.enable_cache_hit_notification = !self.enable_cache_hit_notification;
    }

    /// Leaves editing and closes the history popup.
    pub fn exit_input_mode(&mut self)
        ensures
            final(self).input_mode == InputMode::Normal,
            !final(self).history.show_history_popup,
            final(self).history.search_history@ == old(self).history.search_history@,
            final(self).history.index == old(self).history.index,
            final(self).cache == old(self).cache,
            same_input(final(self), old(self)),
            same_results(final(self), old(self)),
            same_switches(final(self), old(self)),
            same_spinner(final(self), old(self)),
            old(self).wf() ==> final(self).wf(),
    {
        self.input_mode = InputMode::Normal;
        self.history.show_history_popup = false;
    }

    /// Switches to editing and back to the home screen.
    pub fn start_editing(&mut self)
        ensures
            final(self).input_mode == InputMode::Editing,
            final(self).display_mode == DisplayMode::Home,
            final(self).messages@ == old(self).messages@,
            final(self).error_message == old(self).error_message,
            final(self).cache_hit == old(self).cache_hit,
            same_input(final(self), old(self)),
            same_stores(final(self), old(self)),
            final(self).selected_idx == old(self).selected_idx,
            final(self).results_selected == old(self).results_selected,
            final(self).is_loading == old(self).is_loading,
            final(self).has_entered == old(self).has_entered,
            same_switches(final(self), old(self)),
            same_spinner(final(self), old(self)),
            old(self).wf() ==> final(self).wf(),
    {
        self.display_mode = DisplayMode::Home;
        self.input_mode = InputMode::Editing;
    }

    /// Asks the session loop to stop.
    pub fn quit(&mut self)
        ensures
            final(self).should_quit,
            same_input(final(self), old(self)),
            same_results(final(self), old(self)),
            same_stores(final(self), old(self)),
            final(self).input_mode == old(self).input_mode,
            final(self).debug_mode == old(self).debug_mode,
            final(self).enable_cache_hit_notification == old(self).enable_cache_hit_notification,
            final(self).history_selected == old(self).history_selected,
            same_spinner(final(self), old(self)),
            old(self).wf() ==> final(self).wf(),
    {
        self.should_quit = true;
    }

    /// Run before every editing action: a fresh edit discards the previous
    /// answer.
    pub fn begin_edit_action(&mut self)
        ensures
            final(self).messages@.len() == 0,
            final(self).error_message is None,
            !final(self).has_entered,
            final(self).selected_idx == old(self).selected_idx,
            final(self).results_selected == old(self).results_selected,
            final(self).display_mode == old(self).display_mode,
            final(self).is_loading == old(self).is_loading,
            final(self).cache_hit == old(self).cache_hit,
            same_input(final(self), old(self)),
            same_stores(final(self), old(self)),
            same_flags(final(self), old(self)),
            old(self).wf() ==> final(self).wf(),
    {
        self.messages = Vec::new();
        self.error_message = None;
        self.has_entered = false;
    }

    /// Run after the input was changed directly: history browsing ends and its
    /// cursor returns to the front.
    pub fn end_history_browsing(&mut self)
        ensures
            final(self).history.index == 0,
            !final(self).history.show_history_popup,
            final(self).history.search_history@ == old(self).history.search_history@,
            final(self).cache == old(self).cache,
            same_input(final(self), old(self)),
            same_results(final(self), old(self)),
            same_flags(final(self), old(self)),
            old(self).wf() ==> final(self).wf(),
    {
        self.history.index = 0;
        self.history.show_history_popup = false;
    }

    /// Run when a submission has completed: back to normal mode with the
    /// submission marked, history browsing ended.
    pub fn end_submit(&mut self)
        ensures
            final(self).input_mode == InputMode::Normal,
            final(self).has_entered,
            final(self).history.index == 0,
            !final(self).history.show_history_popup,
            final(self).history.search_history@ == old(self).history.search_history@,
            final(self).cache == old(self).cache,
            final(self).messages@ == old(self).messages@,
            final(self).error_message == old(self).error_message,
            final(self).display_mode == old(self).display_mode,
            final(self).is_loading == old(self).is_loading,
            final(self).cache_hit == old(self).cache_hit,
            final(self).selected_idx == old(self).selected_idx,
            final(self).results_selected == old(self).results_selected,
            final(self).debug_mode == old(self).debug_mode,
            final(self).should_quit == old(self).should_quit,
            final(self).enable_cache_hit_notification == old(self).enable_cache_hit_notification,
            final(self).history_selected == old(self).history_selected,
            same_input(final(self), old(self)),
            same_spinner(final(self), old(self)),
            old(self).wf() ==> final(self).wf(),
    {
        self.input_mode = InputMode::Normal;
        self.has_entered = true;
        self.history.index = 0;
        self.history.show_history_popup = false;
    }

    /// Advances the loading spinner by one frame while a search runs, wrapping
    /// after the last frame.
    pub fn advance_spinner(&mut self)
        ensures
            final(self).spinner_index == (if old(self).is_loading && old(
                self,
            ).spinner_frames@.len() > 0 {
                if old(self).spinner_index + 1 < old(self).spinner_frames@.len() {
                    (old(self).spinner_index + 1) as usize
                } else {
                    0
                }
            } else {
                old(self).spinner_index
            }),
            final(self).spinner_frames@ == old(self).spinner_frames@,
            same_input(final(self), old(self)),
            same_results(final(self), old(self)),
            same_stores(final(self), old(self)),
            final(self).input_mode == old(self).input_mode,
            same_switches(final(self), old(self)),
            old(self).wf() ==> final(self).wf(),
    {
        if self.is_loading && self.spinner_frames.len() > 0 {
            self.spinner_index = if self.spinner_index < self.spinner_frames.len() - 1 {
                self.spinner_index + 1
            } else {
                0
            };
        }
    }

    /// A submission completed with no results and no error: the "no match"
    /// notice is due.
    pub fn shows_no_match(&self) -> (r: bool)
        ensures
            r == (self.error_message is None && self.messages@.len() == 0 && self.has_entered
                && !self.is_loading),
    {
        self.error_message.is_none() && self.messages.is_empty() && self.has_entered
            && !self.is_loading
    }

    /// The shown results came from the cache and the user wants to be told.
    pub fn shows_cache_notice(&self) -> (r: bool)
        ensures
            r == (self.cache_hit && self.enable_cache_hit_notification),
    {
        self.cache_hit && self.enable_cache_hit_notification
    }
}

} // verus!
