use centrum_launcher::history::History;
use centrum_launcher::web::{check_web as check, url_regex, web_candidates};

fn check_web(query: &str, history: &History, engine: &str) -> Vec<centrum_launcher::candidate::AppItem> {
    let links = url_regex().expect("the expression compiles");
    check(query, history, &links, engine)
}

fn names(items: &[centrum_launcher::candidate::AppItem]) -> Vec<String> {
    items.iter().map(|i| i.name.clone()).collect()
}

fn actions(items: &[centrum_launcher::candidate::AppItem]) -> Vec<String> {
    items.iter().map(|i| i.action.clone()).collect()
}

#[test]
fn search_has_one_live_candidate_for_the_engine() {
    let history = History::new();
    let r = check_web("?weather", &history, "google");
    assert_eq!(r.len(), 1);
    assert_eq!(r[0].name, "Search Google for 'weather'");
    assert_eq!(r[0].action, "xdg-open https://www.google.com/search?q=weather");
    assert_eq!(r[0].icon, "\u{f002}");
    assert_eq!(r[0].desktop_id, "web");
    assert!(!r[0].terminal);
}

#[test]
fn search_engines_by_name() {
    let history = History::new();
    let cases = [
        ("startpage", "StartPage", "https://www.startpage.com/sp/search?q="),
        ("duckduckgo", "DuckDuckGo", "https://duckduckgo.com/?q="),
        ("ddg", "DuckDuckGo", "https://duckduckgo.com/?q="),
        ("google", "Google", "https://www.google.com/search?q="),
        ("bing", "Bing", "https://www.bing.com/search?q="),
        ("ecosia", "Ecosia", "https://www.ecosia.org/search?q="),
        ("qwant", "Qwant", "https://www.qwant.com/?q="),
        ("something else", "Google", "https://www.google.com/search?q="),
    ];
    for (engine, shown, base) in cases {
        let r = check_web("? rust  lang ", &history, engine);
        assert_eq!(r.len(), 1);
        assert_eq!(r[0].name, format!("Search {} for 'rust  lang'", shown));
        assert_eq!(r[0].action, format!("xdg-open {}rust++lang", base));
    }
}

#[test]
fn search_lists_history_by_count_then_reverse_key() {
    let mut history = History::new();
    history.set("https://www.google.com/search?q=weather+today", 2);
    history.set("https://www.google.com/search?q=weather+map&x=1", 5);
    history.set("https://duckduckgo.com/?q=weather+zone", 2);
    history.set("https://example.org/weather", 9);
    history.set("https://www.google.com/search?q=cats", 7);
    let r = check_web("?Weather", &history, "google");
    assert_eq!(
        names(&r),
        vec![
            "Search Google for 'Weather'",
            "Search: weather map",
            "Search: weather today",
            "Search: weather zone",
        ]
    );
    assert_eq!(r[1].action, "https://www.google.com/search?q=weather+map&x=1");
    assert_eq!(r[2].action, "https://www.google.com/search?q=weather+today");
    assert_eq!(r[3].action, "https://duckduckgo.com/?q=weather+zone");
}

#[test]
fn search_dedups_by_shown_query_and_caps_at_ten() {
    let mut history = History::new();
    history.set("https://a.example/?q=same", 3);
    history.set("https://b.example/?q=same", 4);
    for i in 0..20 {
        history.set(&format!("https://a.example/?q=item{:02}", i), 1);
    }
    let r = check_web("?", &history, "google");
    assert_eq!(r.len(), 10);
    assert_eq!(r[0].name, "Search: same");
    assert_eq!(r[0].action, "https://b.example/?q=same");
    assert_eq!(r[1].name, "Search: item19");
    assert_eq!(r[9].name, "Search: item11");
    let with_live = check_web("?item", &history, "google");
    assert_eq!(with_live.len(), 10);
    assert_eq!(with_live[0].name, "Search Google for 'item'");
    assert_eq!(with_live[1].name, "Search: item19");
    assert_eq!(with_live[9].name, "Search: item11");
}

#[test]
fn links_have_a_live_candidate_and_history() {
    let mut history = History::new();
    history.set("xdg-open https://docs.rs/regex", 2);
    history.set("xdg-open http://docs.rs/regex", 7);
    history.set("xdg-open https://docs.rs/serde", 7);
    history.set("xdg-open https://www.google.com/search?q=docs", 9);
    history.set("https://docs.rs/other", 9);
    let r = check_web(":docs", &history, "google");
    assert_eq!(names(&r), vec!["Open 'docs'", "docs.rs/regex", "docs.rs/serde"]);
    assert_eq!(
        actions(&r),
        vec![
            "xdg-open https://docs",
            "xdg-open http://docs.rs/regex",
            "xdg-open https://docs.rs/serde",
        ]
    );
    assert_eq!(r[0].icon, "\u{f059f}");
    let with_scheme = check_web(": ftp://host/x ", &history, "google");
    assert_eq!(with_scheme.len(), 1);
    assert_eq!(with_scheme[0].name, "Open 'ftp://host/x'");
    assert_eq!(with_scheme[0].action, "xdg-open ftp://host/x");
    let all = check_web(":", &history, "google");
    assert_eq!(names(&all), vec!["docs.rs/regex", "docs.rs/serde"]);
}

#[test]
fn bare_links_are_offered() {
    let history = History::new();
    let r = check_web("example.org/a?b=1", &history, "google");
    assert_eq!(r.len(), 1);
    assert_eq!(r[0].name, "Open Link");
    assert_eq!(r[0].action, "xdg-open https://example.org/a?b=1");
    let r = check_web("https://example.org", &history, "google");
    assert_eq!(r[0].action, "xdg-open https://example.org");
    let r = check_web("httpx", &history, "google");
    assert_eq!(r.len(), 1);
    assert_eq!(r[0].action, "xdg-open https://httpx");
    assert_eq!(check_web("firefox", &history, "google").len(), 0);
    assert_eq!(check_web("2+2", &history, "google").len(), 0);
    assert_eq!(check_web("", &history, "google").len(), 0);
    assert_eq!(check_web("a b.c", &history, "google").len(), 0);
}

#[test]
fn the_shape_of_a_link_is_handed_in() {
    let history = History::new();
    assert_eq!(web_candidates("plain", &history, "google", false).len(), 0);
    let r = web_candidates("plain", &history, "google", true);
    assert_eq!(r.len(), 1);
    assert_eq!(r[0].action, "xdg-open https://plain");
}

#[test]
fn the_expression_is_handed_in() {
    let history = History::new();
    let digits = regex::Regex::new("^[0-9]+$").expect("the expression compiles");
    assert_eq!(check("12345", &history, &digits, "google").len(), 1);
    assert_eq!(check("example.org", &history, &digits, "google").len(), 0);
    let links = url_regex().expect("the expression compiles");
    assert!(links.is_match("example.org/a-b?c=d&e=%20"));
    assert!(links.is_match("http://a.b"));
    assert!(!links.is_match("example"));
    assert!(!links.is_match("a b.c"));
}
