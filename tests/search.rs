use terminal_google_search::highlight::match_runs;
use terminal_google_search::layout::{
    centered_popup_area, history_popup_text, history_window, top_right_popup_area, Area,
};
use terminal_google_search::record::QueryResult;
use terminal_google_search::search::{
    collect_results, decimal_string, http_error_description, pick_user_agent, search_url,
    user_agents,
};
use terminal_google_search::text::{normalize_query, StringExt};

#[test]
fn search_url_percent_encodes_query() {
    assert_eq!(search_url("rust async"), "https://www.google.com/search?q=rust%20async");
    assert_eq!(search_url("a&b"), "https://www.google.com/search?q=a%26b");
}

#[test]
fn user_agent_is_one_of_the_known() {
    let agents = user_agents();
    assert_eq!(agents.len(), 3);
    let a = pick_user_agent();
    assert!(agents.contains(&a));
}

#[test]
fn http_error_text() {
    assert_eq!(http_error_description(429, "slow down"), "HTTP Error: 429 - slow down");
    assert_eq!(decimal_string(0), "0");
    assert_eq!(decimal_string(65535), "65535");
}

#[test]
fn collect_keeps_complete_blocks_only() {
    let hits = vec![
        (Some("https://a".to_string()), Some("  first \n".to_string())),
        (None, Some("orphan".to_string())),
        (Some("https://b".to_string()), None),
        (Some("https://c".to_string()), Some("third".to_string())),
    ];
    let r = collect_results(hits);
    assert_eq!(r.len(), 2);
    assert_eq!(r[0].url, "https://a");
    assert_eq!(r[0].description, "first");
    assert!(r[0].url_supported_flag);
    assert_eq!(r[1].url, "https://c");
}

#[test]
fn describe_result() {
    let q = QueryResult {
        url: "https://a".to_string(),
        description: "A".to_string(),
        url_supported_flag: false,
    };
    assert_eq!(q.describe(), "Url: https://a\n Description: A\n Crawl supported: false");
    let c = q.clone();
    assert_eq!(c.url, q.url);
}

#[test]
fn normalize_trims_and_lowercases() {
    assert_eq!(normalize_query("  Hello World\t"), "hello world");
    assert_eq!(normalize_query(" \u{3000} "), "");
}

#[test]
fn grapheme_length_counts_clusters() {
    assert_eq!("a\u{310}e\u{301}o".to_string().grapheme_len(), 3);
    assert_eq!(String::new().grapheme_len(), 0);
}

#[test]
fn centered_popup() {
    let screen = Area { x: 0, y: 0, width: 80, height: 24 };
    let r = centered_popup_area(10, 1, screen);
    assert_eq!(r, Area { x: 33, y: 9, width: 14, height: 5 });
    let big = centered_popup_area(200, 100, screen);
    assert_eq!(big, Area { x: 0, y: 0, width: 80, height: 24 });
}

#[test]
fn top_right_popup() {
    let screen = Area { x: 0, y: 0, width: 80, height: 24 };
    let r = top_right_popup_area(19, 1, screen);
    assert_eq!(r, Area { x: 56, y: 0, width: 23, height: 5 });
}

#[test]
fn history_window_centres_selection() {
    assert_eq!(history_window(3, 1, 10), (0, 3));
    assert_eq!(history_window(20, 10, 4), (8, 12));
    assert_eq!(history_window(20, 19, 4), (16, 20));
    assert_eq!(history_window(20, 0, 4), (0, 4));
}

#[test]
fn history_popup_marks_selected() {
    let items = vec!["a".to_string(), "b".to_string()];
    assert_eq!(history_popup_text(&items, 1, 10), "  a\n> b\n");
}

#[test]
fn highlight_marks_case_insensitive_matches() {
    let pieces = terminal_google_search::highlight::highlight_pieces("Rust is rusty", "rust");
    let got: Vec<(String, bool)> = pieces;
    assert_eq!(
        got,
        vec![
            ("".to_string(), false),
            ("Rust".to_string(), true),
            (" is ".to_string(), false),
            ("rust".to_string(), true),
            ("y".to_string(), false),
        ]
    );
}

#[test]
fn highlight_with_empty_input_is_plain() {
    let pieces = terminal_google_search::highlight::highlight_pieces("abc", "");
    assert_eq!(pieces, vec![("abc".to_string(), false)]);
    let spans = terminal_google_search::highlight::highlight_spans("aaa", "aa");
    assert_eq!(spans, vec![(0, 0, false), (0, 2, true), (2, 3, false)]);
}

#[test]
fn match_runs_is_exact_and_non_overlapping() {
    assert_eq!(
        match_runs("abcab", "ab"),
        vec![(0, 0, false), (0, 2, true), (2, 3, false), (3, 5, true), (5, 5, false)]
    );
    assert_eq!(match_runs("Ab", "ab"), vec![(0, 2, false)]);
    assert_eq!(match_runs("xyz", ""), vec![(0, 3, false)]);
}
