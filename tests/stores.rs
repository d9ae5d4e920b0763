use terminal_google_search::cache::{Cache, CacheEntry, TTL_SECS};
use terminal_google_search::history::History;
use terminal_google_search::record::QueryResult;

fn rec(url: &str, description: &str) -> QueryResult {
    QueryResult {
        url: url.to_string(),
        description: description.to_string(),
        url_supported_flag: true,
    }
}

fn urls(v: &[QueryResult]) -> Vec<String> {
    v.iter().map(|r| r.url.clone()).collect()
}

#[test]
fn ttl_one_second_before_expiry_is_a_hit() {
    let mut c = Cache::new();
    let t0 = 1_700_000_000u64;
    c.insert("rust".to_string(), vec![rec("https://a", "A")], t0);
    let got = c.get("rust", t0 + TTL_SECS - 1).expect("fresh entry");
    assert_eq!(urls(&got), vec!["https://a".to_string()]);
    assert_eq!(c.len(), 1);
}

#[test]
fn ttl_at_expiry_is_a_miss_and_evicts() {
    let mut c = Cache::new();
    let t0 = 1_700_000_000u64;
    c.insert("rust".to_string(), vec![rec("https://a", "A")], t0);
    assert!(c.get("rust", t0 + TTL_SECS).is_none());
    assert_eq!(c.len(), 0);
    assert!(c.entries().is_empty());
    assert!(c.get("rust", t0).is_none());
}

#[test]
fn ttl_long_after_expiry_is_a_miss() {
    let mut c = Cache::new();
    c.insert("q".to_string(), vec![], 10);
    assert!(c.get("q", 10 + 3 * TTL_SECS).is_none());
    assert_eq!(c.len(), 0);
}

#[test]
fn ttl_is_one_day() {
    assert_eq!(TTL_SECS, 86400);
}

#[test]
fn miss_on_unknown_key_changes_nothing() {
    let mut c = Cache::new();
    c.insert("a".to_string(), vec![rec("https://a", "A")], 5);
    assert!(c.get("b", 6).is_none());
    assert_eq!(c.len(), 1);
}

#[test]
fn write_through_after_miss() {
    let mut c = Cache::new();
    let now = 2_000u64;
    assert!(c.get("q", now).is_none());
    let fetched = vec![rec("https://x", "X"), rec("https://y", "Y")];
    c.insert("q".to_string(), fetched.clone(), now);
    let got = c.get("q", now).expect("just stored");
    assert_eq!(urls(&got), urls(&fetched));
}

#[test]
fn insert_overwrites_existing_entry() {
    let mut c = Cache::new();
    c.insert("q".to_string(), vec![rec("https://old", "o")], 1);
    c.insert("q".to_string(), vec![rec("https://new", "n")], 2);
    assert_eq!(c.len(), 1);
    let got = c.get("q", 3).unwrap();
    assert_eq!(urls(&got), vec!["https://new".to_string()]);
    assert_eq!(c.entries()[0].timestamp, 2);
}

#[test]
fn from_entries_later_entry_wins() {
    let entries = vec![
        CacheEntry { query: "a".to_string(), results: vec![rec("https://1", "1")], timestamp: 1 },
        CacheEntry { query: "b".to_string(), results: vec![], timestamp: 1 },
        CacheEntry { query: "a".to_string(), results: vec![rec("https://2", "2")], timestamp: 1 },
    ];
    let mut c = Cache::from_entries(entries);
    assert_eq!(c.len(), 2);
    assert_eq!(urls(&c.get("a", 2).unwrap()), vec!["https://2".to_string()]);
}

fn history_of(items: &[&str]) -> History {
    History::new(items.iter().map(|s| s.to_string()).collect())
}

#[test]
fn history_dedup_and_most_recent_first() {
    let mut h = History::new(Vec::new());
    h.add_query("a".to_string());
    h.add_query("b".to_string());
    h.add_query("a".to_string());
    assert_eq!(h.get_queries().to_vec(), vec!["a".to_string(), "b".to_string()]);
    assert_eq!(h.index, 0);
    assert!(!h.show_history_popup);
}

#[test]
fn history_add_resets_cursor_and_browsing() {
    let mut h = history_of(&["x", "y", "z"]);
    h.next();
    h.next();
    assert!(h.show_history_popup);
    h.add_query("w".to_string());
    assert_eq!(h.index, 0);
    assert!(!h.show_history_popup);
    assert_eq!(h.get_current(), "w");
}

#[test]
fn history_wraparound() {
    let mut h = history_of(&["x", "y", "z"]);
    assert_eq!(h.index, 0);
    h.previous();
    assert_eq!(h.index, 2);
    assert_eq!(h.get_current(), "z");
    assert!(h.show_history_popup);
    h.next();
    assert_eq!(h.index, 0);
    assert_eq!(h.get_current(), "x");
}

#[test]
fn history_navigation_on_empty_store_is_noop() {
    let mut h = History::new(Vec::new());
    h.next();
    assert_eq!(h.index, 0);
    assert!(!h.show_history_popup);
    h.previous();
    assert_eq!(h.index, 0);
    assert!(!h.show_history_popup);
    assert_eq!(h.get_current(), "");
}

#[test]
fn history_next_steps_forward() {
    let mut h = history_of(&["x", "y", "z"]);
    h.next();
    assert_eq!(h.get_current(), "y");
    h.previous();
    assert_eq!(h.get_current(), "x");
    assert_eq!(h.get_queries().len(), 3);
}

#[test]
fn history_from_lines_trims_and_dedups() {
    let lines = vec!["a  ".to_string(), "b".to_string(), "a".to_string(), "c\t".to_string()];
    let h = History::from_lines(lines);
    assert_eq!(
        h.get_queries().to_vec(),
        vec!["a".to_string(), "b".to_string(), "c".to_string()]
    );
}

#[test]
fn history_to_text_one_line_per_entry() {
    let h = history_of(&["a", "b c"]);
    assert_eq!(h.to_text(), "a\nb c\n");
    assert_eq!(History::new(Vec::new()).to_text(), "");
}
