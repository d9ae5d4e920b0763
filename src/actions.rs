use crate::cache::{after_lookup, lookup};
use crate::history::{current_entry, next_index, previous_index};
use crate::record::QueryResult;
use crate::session::{
    edit_point, min_int, next_selection, previous_selection, same_flags, same_input,
    same_results, same_spinner, same_stores, same_switches, App, DisplayMode, InputMode,
    SubmitStep,
};
use crate::text::{grapheme_count, grapheme_offset, normalized, trim_of};
use vstd::prelude::*;

verus! {

/// A discrete user action, as the key bindings name it.
pub enum Action {
    InsertChar(char),
    DeleteChar,
    CursorLeft,
    CursorRight,
    HistoryPrevious,
    HistoryNext,
    Submit,
    Escape,
    Edit,
    Quit,
    ToggleDebug,
    ToggleCacheNotice,
    SelectPrevious,
    SelectNext,
    Clear,
    Open,
    /// A key with no binding.
    Other,
}

/// What the caller has to carry out after an action.
pub enum Effect {
    Nothing,
    /// Finish this submission (`complete_cached` / `complete_fetch`).
    Search(SubmitStep),
    /// Open this address in the viewer; report a failure with
    /// `report_open_failure`.
    OpenUrl(String),
}

/// `b` is `a` after the reset that starts every editing action: the previous
/// answer and error are gone and nothing counts as submitted.
pub open spec fn edit_cleared(a: &App, b: &App) -> bool {
    &&& b.messages@.len() == 0
    &&& b.error_message is None
    &&& !b.has_entered
    &&& b.selected_idx == a.selected_idx
    &&& b.results_selected == a.results_selected
    &&& b.display_mode == a.display_mode
    &&& b.is_loading == a.is_loading
}

/// The history list and the cache are untouched.
pub open spec fn same_data(a: &App, b: &App) -> bool {
    &&& a.history.search_history@ == b.history.search_history@
    &&& a.cache@ == b.cache@
    &&& a.cache.wf() == b.cache.wf()
}

/// Normal-mode actions that leave the session as it is.
pub open spec fn is_editing_only(action: Action) -> bool {
    match action {
        Action::InsertChar(_) | Action::DeleteChar | Action::CursorLeft | Action::CursorRight
        | Action::HistoryPrevious | Action::HistoryNext | Action::Submit | Action::Escape
        | Action::Other => true,
        _ => false,
    }
}

/// Actions that editing mode does not bind.
pub open spec fn is_normal_only(action: Action) -> bool {
    match action {
        Action::Edit | Action::Quit | Action::ToggleDebug | Action::ToggleCacheNotice
        | Action::SelectPrevious | Action::SelectNext | Action::Clear | Action::Open
        | Action::Other => true,
        _ => false,
    }
}

impl App {
    /// Applies one user action at time `now`, as the input mode allows it.
    ///
    /// In normal mode the result list is driven and editing actions do nothing.
    /// In editing mode every action first discards the previous answer; a
    /// character edit also ends history browsing; history recall replaces the
    /// input; a submission starts a search whose completion the caller carries
    /// out (a blank one ends at once, back in normal mode).
    pub fn handle_action(&mut self, action: Action, now: u64) -> (r: Effect)
        requires
            old(self).wf(),
        ensures
            final(self).wf(),
            old(self).input_mode == InputMode::Normal ==> match action {
                Action::Edit => {
                    &&& r is Nothing
                    &&& final(self).input_mode == InputMode::Editing
                    &&& final(self).display_mode == DisplayMode::Home
                    &&& final(self).messages@ == old(self).messages@
                    &&& final(self).error_message == old(self).error_message
                    &&& final(self).cache_hit == old(self).cache_hit
                    &&& final(self).selected_idx == old(self).selected_idx
                    &&& final(self).results_selected == old(self).results_selected
                    &&& final(self).is_loading == old(self).is_loading
                    &&& final(self).has_entered == old(self).has_entered
                    &&& same_input(final(self), old(self))
                    &&& same_stores(final(self), old(self))
                    &&& same_switches(final(self), old(self))
                    &&& same_spinner(final(self), old(self))
                },
                Action::Quit => {
                    &&& r is Nothing
                    &&& final(self).should_quit
                    &&& final(self).input_mode == old(self).input_mode
                    &&& final(self).debug_mode == old(self).debug_mode
                    &&& final(self).enable_cache_hit_notification
                        == old(self).enable_cache_hit_notification
                    &&& final(self).history_selected == old(self).history_selected
                    &&& same_input(final(self), old(self))
                    &&& same_results(final(self), old(self))
                    &&& same_stores(final(self), old(self))
                    &&& same_spinner(final(self), old(self))
                },
                Action::ToggleDebug => {
                    &&& r is Nothing
                    &&& final(self).debug_mode == !old(self).debug_mode
                    &&& final(self).enable_cache_hit_notification
                        == old(self).enable_cache_hit_notification
                    &&& final(self).input_mode == old(self).input_mode
                    &&& final(self).should_quit == old(self).should_quit
                    &&& final(self).history_selected == old(self).history_selected
                    &&& same_input(final(self), old(self))
                    &&& same_results(final(self), old(self))
                    &&& same_stores(final(self), old(self))
                    &&& same_spinner(final(self), old(self))
                },
                Action::ToggleCacheNotice => {
                    &&& r is Nothing
                    &&& final(self).enable_cache_hit_notification
                        == !old(self).enable_cache_hit_notification
                    &&& final(self).debug_mode == old(self).debug_mode
                    &&& final(self).input_mode == old(self).input_mode
                    &&& final(self).should_quit == old(self).should_quit
                    &&& final(self).history_selected == old(self).history_selected
                    &&& same_input(final(self), old(self))
                    &&& same_results(final(self), old(self))
                    &&& same_stores(final(self), old(self))
                    &&& same_spinner(final(self), old(self))
                },
                Action::SelectPrevious => {
                    &&& r is Nothing
                    &&& (old(self).messages@.len() == 0 ==> *final(self) == *old(self))
                    &&& (old(self).messages@.len() > 0 ==> {
                        let i = previous_selection(
                            old(self).results_selected,
                            old(self).messages@.len(),
                        );
                        &&& final(self).results_selected == Some(i)
                        &&& final(self).selected_idx == i
                        &&& i < final(self).messages@.len()
                    })
                    &&& final(self).messages@ == old(self).messages@
                    &&& final(self).error_message == old(self).error_message
                    &&& same_input(final(self), old(self))
                    &&& same_stores(final(self), old(self))
                    &&& same_flags(final(self), old(self))
                },
                Action::SelectNext => {
                    &&& r is Nothing
                    &&& (old(self).messages@.len() == 0 ==> *final(self) == *old(self))
                    &&& (old(self).messages@.len() > 0 ==> {
                        let i = next_selection(old(self).results_selected, old(self).messages@.len());
                        &&& final(self).results_selected == Some(i)
                        &&& final(self).selected_idx == i
                        &&& i < final(self).messages@.len()
                    })
                    &&& final(self).messages@ == old(self).messages@
                    &&& final(self).error_message == old(self).error_message
                    &&& same_input(final(self), old(self))
                    &&& same_stores(final(self), old(self))
                    &&& same_flags(final(self), old(self))
                },
                Action::Clear => {
                    &&& r is Nothing
                    &&& final(self).input@.len() == 0
                    &&& final(self).cursor_idx == 0
                    &&& !final(self).cache_hit
                    &&& !final(self).has_entered
                    &&& final(self).display_mode == DisplayMode::Home
                    &&& final(self).input_mode == InputMode::Editing
                    &&& final(self).messages@ == old(self).messages@
                    &&& final(self).error_message == old(self).error_message
                    &&& final(self).selected_idx == old(self).selected_idx
                    &&& final(self).results_selected == old(self).results_selected
                    &&& final(self).is_loading == old(self).is_loading
                    &&& same_stores(final(self), old(self))
                    &&& same_switches(final(self), old(self))
                    &&& same_spinner(final(self), old(self))
                },
                Action::Open => {
                    &&& *final(self) == *old(self)
                    &&& if old(self).selected_idx < old(self).messages@.len() {
                        r matches Effect::OpenUrl(u) && u@ == old(
                            self,
                        ).messages@[old(self).selected_idx as int].url@
                    } else {
                        r is Nothing
                    }
                },
                _ => r is Nothing && *final(self) == *old(self),
            },
            old(self).input_mode == InputMode::Editing ==> match action {
                Action::Submit => {
                    let q = normalized(old(self).input@);
                    &&& r matches Effect::Search(step) && if trim_of(old(self).input@).len() == 0 {
                        &&& step is Skipped
                        &&& final(self).input_mode == InputMode::Normal
                        &&& final(self).has_entered
                        &&& final(self).history.index == 0
                        &&& !final(self).history.show_history_popup
                        &&& final(self).display_mode == old(self).display_mode
                        &&& final(self).is_loading == old(self).is_loading
                        &&& same_data(final(self), old(self))
                        &&& final(self).cache_hit == old(self).cache_hit
                    } else {
                        &&& final(self).input_mode == InputMode::Editing
                        &&& !final(self).has_entered
                        &&& final(self).history.queries() == seq![q] + old(
                            self,
                        ).history.queries().remove_value(q)
                        &&& final(self).history.index == 0
                        &&& !final(self).history.show_history_popup
                        &&& final(self).display_mode == DisplayMode::Searching
                        &&& final(self).is_loading
                        &&& final(self).cache@ == after_lookup(old(self).cache@, q, now)
                        &&& match lookup(old(self).cache@, q, now) {
                            Some(rs) => {
                                &&& step matches SubmitStep::Cached(v) && v@ == rs
                                &&& final(self).cache_hit == old(self).cache_hit
                            },
                            None => {
                                &&& step matches SubmitStep::Fetch(args) && args.query@ == q
                                    && args.debug_mode == old(self).debug_mode
                                &&& !final(self).cache_hit
                            },
                        }
                    }
                    &&& final(self).messages@.len() == 0
                    &&& final(self).error_message is None
                    &&& final(self).selected_idx == old(self).selected_idx
                    &&& final(self).results_selected == old(self).results_selected
                    &&& same_input(final(self), old(self))
                    &&& same_switches(final(self), old(self))
                    &&& same_spinner(final(self), old(self))
                },
                Action::InsertChar(c) => {
                    let off = grapheme_offset(old(self).input@, edit_point(old(self)));
                    &&& r is Nothing
                    &&& edit_cleared(old(self), final(self))
                    &&& final(self).input@ == old(self).input@.take(off) + seq![c] + old(
                        self,
                    ).input@.skip(off)
                    &&& final(self).cursor_idx == min_int(
                        edit_point(old(self)) + 1,
                        grapheme_count(final(self).input@) as int,
                    )
                    &&& !final(self).cache_hit
                    &&& final(self).history.index == 0
                    &&& !final(self).history.show_history_popup
                    &&& same_data(final(self), old(self))
                    &&& same_flags(final(self), old(self))
                },
                Action::DeleteChar => {
                    let k = edit_point(old(self));
                    &&& r is Nothing
                    &&& edit_cleared(old(self), final(self))
                    &&& (k == 0 ==> same_input(final(self), old(self)))
                    &&& (k > 0 ==> {
                        &&& final(self).input@ == old(self).input@.take(
                            grapheme_offset(old(self).input@, k - 1),
                        ) + old(self).input@.skip(grapheme_offset(old(self).input@, k))
                        &&& final(self).cursor_idx == min_int(
                            k - 1,
                            grapheme_count(final(self).input@) as int,
                        )
                    })
                    &&& !final(self).cache_hit
                    &&& final(self).history.index == 0
                    &&& !final(self).history.show_history_popup
                    &&& same_data(final(self), old(self))
                    &&& same_flags(final(self), old(self))
                },
                Action::CursorLeft => {
                    &&& r is Nothing
                    &&& edit_cleared(old(self), final(self))
                    &&& final(self).cursor_idx == (if old(self).cursor_idx > 0 {
                        old(self).cursor_idx - 1
                    } else {
                        0
                    })
                    &&& final(self).input@ == old(self).input@
                    &&& final(self).cache_hit == old(self).cache_hit
                    &&& same_stores(final(self), old(self))
                    &&& same_flags(final(self), old(self))
                },
                Action::CursorRight => {
                    &&& r is Nothing
                    &&& edit_cleared(old(self), final(self))
                    &&& final(self).cursor_idx == (if old(self).cursor_idx < grapheme_count(
                        old(self).input@,
                    ) {
                        old(self).cursor_idx + 1
                    } else {
                        old(self).cursor_idx as int
                    })
                    &&& final(self).input@ == old(self).input@
                    &&& final(self).cache_hit == old(self).cache_hit
                    &&& same_stores(final(self), old(self))
                    &&& same_flags(final(self), old(self))
                },
                Action::HistoryPrevious => {
                    let n = old(self).history.search_history@.len();
                    &&& r is Nothing
                    &&& edit_cleared(old(self), final(self))
                    &&& final(self).cache_hit == old(self).cache_hit
                    &&& same_data(final(self), old(self))
                    &&& if n > 0 {
                        &&& final(self).history.index == previous_index(old(self).history.index, n)
                        &&& final(self).history.show_history_popup
                        &&& final(self).history_selected == Some(final(self).history.index)
                        &&& final(self).input@ == trim_end_of_entry(final(self).history)
                        &&& final(self).cursor_idx == grapheme_count(final(self).input@)
                        &&& final(self).input_mode == old(self).input_mode
                        &&& final(self).debug_mode == old(self).debug_mode
                        &&& final(self).enable_cache_hit_notification
                            == old(self).enable_cache_hit_notification
                        &&& final(self).should_quit == old(self).should_quit
                        &&& same_spinner(final(self), old(self))
                    } else {
                        &&& same_input(final(self), old(self))
                        &&& same_stores(final(self), old(self))
                        &&& same_flags(final(self), old(self))
                    }
                },
                Action::HistoryNext => {
                    let n = old(self).history.search_history@.len();
                    &&& r is Nothing
                    &&& edit_cleared(old(self), final(self))
                    &&& final(self).cache_hit == old(self).cache_hit
                    &&& same_data(final(self), old(self))
                    &&& if n > 0 && old(self).history.show_history_popup {
                        &&& final(self).history.index == next_index(old(self).history.index, n)
                        &&& final(self).history.show_history_popup
                        &&& final(self).history_selected == Some(final(self).history.index)
                        &&& final(self).input@ == trim_end_of_entry(final(self).history)
                        &&& final(self).cursor_idx == grapheme_count(final(self).input@)
                        &&& final(self).input_mode == old(self).input_mode
                        &&& final(self).debug_mode == old(self).debug_mode
                        &&& final(self).enable_cache_hit_notification
                            == old(self).enable_cache_hit_notification
                        &&& final(self).should_quit == old(self).should_quit
                        &&& same_spinner(final(self), old(self))
                    } else {
                        &&& same_input(final(self), old(self))
                        &&& same_stores(final(self), old(self))
                        &&& same_flags(final(self), old(self))
                    }
                },
                Action::Escape => {
                    &&& r is Nothing
                    &&& edit_cleared(old(self), final(self))
                    &&& final(self).input_mode == InputMode::Normal
                    &&& !final(self).history.show_history_popup
                    &&& final(self).history.index == old(self).history.index
                    &&& final(self).cache_hit == old(self).cache_hit
                    &&& same_data(final(self), old(self))
                    &&& same_input(final(self), old(self))
                    &&& same_switches(final(self), old(self))
                    &&& same_spinner(final(self), old(self))
                },
                _ => {
                    &&& r is Nothing
                    &&& edit_cleared(old(self), final(self))
                    &&& final(self).cache_hit == old(self).cache_hit
                    &&& same_input(final(self), old(self))
                    &&& same_stores(final(self), old(self))
                    &&& same_flags(final(self), old(self))
                },
            },
    {
        match self.input_mode {
            InputMode::Normal => match action {
                Action::Edit => {
                    self.start_editing();
                    Effect::Nothing
                },
                Action::Quit => {
                    self.quit();
                    Effect::Nothing
                },
                Action::ToggleDebug => {
                    self.toggle_debug_mode();
                    Effect::Nothing
                },
                Action::ToggleCacheNotice => {
                    self.toggle_cache_notification();
                    Effect::Nothing
                },
                Action::SelectPrevious => {
                    self.previous_result();
                    Effect::Nothing
                },
                Action::SelectNext => {
                    self.next_result();
                    Effect::Nothing
                },
                Action::Clear => {
                    self.clear_input();
                    Effect::Nothing
                },
                Action::Open => match self.url_to_open() {
                    Some(u) => Effect::OpenUrl(u.clone()),
                    None => Effect::Nothing,
                },
                _ => Effect::Nothing,
            },
            InputMode::Editing => {
                self.begin_edit_action();
                match action {
                    Action::Submit => {
                        let step = self.submit(now);
                        if let SubmitStep::Skipped = step {
                            self.end_submit();
                        }
                        Effect::Search(step)
                    },
                    Action::InsertChar(c) => {
                        self.insert_char(c);
                        self.end_history_browsing();
                        Effect::Nothing
                    },
                    Action::DeleteChar => {
                        self.delete_char();
                        self.end_history_browsing();
                        Effect::Nothing
                    },
                    Action::CursorLeft => {
                        self.move_cursor_left();
                        Effect::Nothing
                    },
                    Action::CursorRight => {
                        self.move_cursor_right();
                        Effect::Nothing
                    },
                    Action::HistoryPrevious => {
                        if !self.history.search_history.is_empty() {
                            self.previous_history();
                            self.set_input_to_history();
                        }
                        Effect::Nothing
                    },
                    Action::HistoryNext => {
                        if self.history.show_history_popup
                            && !self.history.search_history.is_empty() {
                            self.next_history();
                            self.set_input_to_history();
                        }
                        Effect::Nothing
                    },
                    Action::Escape => {
                        self.exit_input_mode();
                        Effect::Nothing
                    },
                    _ => Effect::Nothing,
                }
            },
        }
    }

    /// Completes a submission that the cache answered: the results are shown,
    /// and the session returns to normal mode with the submission marked.
    pub fn complete_cached(&mut self, results: Vec<QueryResult>)
        ensures
            final(self).messages@ == results@,
            final(self).error_message is None,
            !final(self).is_loading,
            final(self).cache_hit,
            final(self).display_mode == DisplayMode::Ready,
            final(self).input_mode == InputMode::Normal,
            final(self).has_entered,
            final(self).history.index == 0,
            !final(self).history.show_history_popup,
            final(self).selected_idx == old(self).selected_idx,
            final(self).results_selected == old(self).results_selected,
            same_data(final(self), old(self)),
            same_input(final(self), old(self)),
            same_switches(final(self), old(self)),
            same_spinner(final(self), old(self)),
            old(self).wf() ==> final(self).wf(),
    {
        self.finish_cached(results);
        self.end_submit();
    }

    /// Completes a submission that went to the provider (see `finish_fetch`),
    /// then returns to normal mode with the submission marked.
    pub fn complete_fetch(
        &mut self,
        query: String,
        outcome: Result<Vec<QueryResult>, String>,
        now: u64,
    )
        requires
            old(self).wf(),
        ensures
            final(self).wf(),
            match outcome {
                Ok(rs) => {
                    &&& final(self).messages@ == rs@
                    &&& final(self).cache@ == old(self).cache@.insert(query@, (rs@, now))
                    &&& final(self).error_message == old(self).error_message
                },
                Err(d) => {
                    &&& final(self).messages@ == old(self).messages@
                    &&& final(self).cache@ == old(self).cache@
                    &&& final(self).error_message == Some(d)
                },
            },
            !final(self).is_loading,
            !final(self).cache_hit,
            final(self).display_mode == DisplayMode::Ready,
            final(self).input_mode == InputMode::Normal,
            final(self).has_entered,
            final(self).history.index == 0,
            !final(self).history.show_history_popup,
            final(self).history.search_history@ == old(self).history.search_history@,
            final(self).selected_idx == old(self).selected_idx,
            final(self).results_selected == old(self).results_selected,
            same_input(final(self), old(self)),
            same_switches(final(self), old(self)),
            same_spinner(final(self), old(self)),
    {
        self.finish_fetch(query, outcome, now);
        self.end_submit();
    }
}

/// The history entry under the cursor without trailing whitespace: what
/// recall puts into the input.
pub open spec fn trim_end_of_entry(h: crate::history::History) -> Seq<char> {
    crate::text::trim_end_of(current_entry(h))
}

} // verus!
