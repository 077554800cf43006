use centrum_launcher::apps::{
    get_apps, get_nerd_icon, match_apps, rank_apps, sort_by_usage, Override, RegistryEntry,
};
use centrum_launcher::candidate::{AppItem, IconSource, SourceKind};
use centrum_launcher::config::CustomApp;
use centrum_launcher::history::History;
use centrum_launcher::overrides::{apply_change, Change};

fn reg(id: &str, name: &str, show: bool) -> RegistryEntry {
    RegistryEntry {
        id: Some(id.to_string()),
        name: name.to_string(),
        should_show: show,
        commandline: Some(format!("{} %u", name.to_lowercase())),
        terminal: false,
        has_icon: true,
    }
}

fn app(name: &str, action: &str) -> AppItem {
    AppItem {
        name: name.to_string(),
        action: action.to_string(),
        terminal: false,
        icon: String::new(),
        desktop_id: format!("{}.desktop", name),
        system_icon: IconSource::Glyph,
    }
}

fn names(items: &[AppItem]) -> Vec<String> {
    items.iter().map(|i| i.name.clone()).collect()
}

#[test]
fn glyphs_by_name() {
    assert_eq!(get_nerd_icon("Kitty"), "\u{f489}");
    assert_eq!(get_nerd_icon("Firefox Web Browser"), "\u{f269}");
    assert_eq!(get_nerd_icon("Visual Studio Code"), "\u{f0a1e}");
    assert_eq!(get_nerd_icon("Files"), "\u{f024b}");
    assert_eq!(get_nerd_icon("Text Editor"), "\u{f1782}");
    assert_eq!(get_nerd_icon("Calculator"), "\u{f0a9a}");
    assert_eq!(get_nerd_icon("Clocks"), "\u{f00ed}");
    assert_eq!(get_nerd_icon("htop"), "\u{f154d}");
    assert_eq!(get_nerd_icon("Obsidian"), "\u{f0fce}");
    assert_eq!(get_nerd_icon("Logseq"), "\u{f178e}");
    assert_eq!(get_nerd_icon("Something"), "\u{f003b}");
    assert_eq!(get_nerd_icon(""), "\u{f003b}");
}

#[test]
fn installed_applications_without_changes() {
    let entries = vec![reg("a.desktop", "Alpha", true), reg("b.desktop", "Beta", false)];
    let store: Vec<Override> = Vec::new();
    let shown = get_apps(&entries, &store, false);
    assert_eq!(names(&shown), vec!["Alpha"]);
    assert_eq!(shown[0].action, "alpha %u");
    assert_eq!(shown[0].desktop_id, "a.desktop");
    assert_eq!(shown[0].icon, "\u{f003b}");
    assert!(matches!(shown[0].system_icon, IconSource::Registry));
    assert_eq!(shown[0].kind(), SourceKind::App);
    let hidden = get_apps(&entries, &store, true);
    assert_eq!(names(&hidden), vec!["Beta"]);
}

#[test]
fn changes_are_found_by_id_then_by_short_id_then_by_name() {
    let entries = vec![
        reg("a.desktop", "Alpha", true),
        reg("b.desktop", "Beta", true),
        reg("c.desktop", "Gamma", true),
        RegistryEntry {
            id: None,
            name: "Delta".to_string(),
            should_show: true,
            commandline: None,
            terminal: true,
            has_icon: false,
        },
    ];
    let mut store: Vec<Override> = Vec::new();
    apply_change(&mut store, "a", &Change::Name("Short".to_string()));
    apply_change(&mut store, "a.desktop", &Change::Name("Exact".to_string()));
    apply_change(&mut store, "Alpha", &Change::Name("ByName".to_string()));
    apply_change(&mut store, "b", &Change::Glyph("B".to_string()));
    apply_change(&mut store, "b", &Change::Picture("/icons/b.png".to_string()));
    apply_change(&mut store, "Gamma", &Change::Picture("nerd".to_string()));
    apply_change(&mut store, "Gamma", &Change::Name("Firefox".to_string()));
    apply_change(&mut store, "Delta", &Change::Picture("themed-name".to_string()));
    let r = get_apps(&entries, &store, false);
    assert_eq!(names(&r), vec!["Exact", "Beta", "Firefox", "Delta"]);
    assert_eq!(r[1].icon, "B");
    match &r[1].system_icon {
        IconSource::File(p) => assert_eq!(p, "/icons/b.png"),
        other => panic!("unexpected picture {:?}", other),
    }
    assert!(matches!(r[2].system_icon, IconSource::Glyph));
    assert_eq!(r[2].icon, "\u{f269}");
    match &r[3].system_icon {
        IconSource::Themed(n) => assert_eq!(n, "themed-name"),
        other => panic!("unexpected picture {:?}", other),
    }
    assert_eq!(r[3].desktop_id, "Delta");
    assert_eq!(r[3].action, "");
    assert!(r[3].terminal);
}

#[test]
fn hiding_inverts_with_the_view() {
    let entries = vec![reg("a.desktop", "Alpha", true), reg("b.desktop", "Beta", false)];
    let mut store: Vec<Override> = Vec::new();
    apply_change(&mut store, "a.desktop", &Change::Hidden(true));
    apply_change(&mut store, "b", &Change::Hidden(false));
    assert_eq!(names(&get_apps(&entries, &store, false)), vec!["Beta"]);
    assert_eq!(names(&get_apps(&entries, &store, true)), vec!["Alpha"]);
}

#[test]
fn changes_are_taken_back_by_empty_text() {
    let mut store: Vec<Override> = Vec::new();
    apply_change(&mut store, "x", &Change::Name("N".to_string()));
    apply_change(&mut store, "x", &Change::Glyph("G".to_string()));
    apply_change(&mut store, "x", &Change::Name(String::new()));
    assert_eq!(store.len(), 1);
    assert_eq!(store[0].key, "x");
    assert_eq!(store[0].app.name, None);
    assert_eq!(store[0].app.icon, Some("G".to_string()));
    assert_eq!(store[0].app.hidden, None);
    let blank = CustomApp::default();
    assert!(blank.name.is_none() && blank.icon.is_none() && blank.system_icon.is_none());
}

#[test]
fn applications_are_ranked_by_score_then_usage() {
    let apps = vec![app("a", "a"), app("b", "b %f"), app("c", "c"), app("d", "d"), app("e", "e")];
    let mut history = History::new();
    history.set("b ", 3);
    history.set("c", 9);
    history.set("e", 3);
    let scores = vec![Some(10), Some(50), None, Some(50), Some(50)];
    let r = rank_apps(&apps, &scores, &history);
    assert_eq!(names(&r), vec!["b", "e", "d", "a"]);
    let short = rank_apps(&apps, &vec![Some(1)], &history);
    assert_eq!(names(&short), vec!["a"]);
}

#[test]
fn all_applications_by_usage_keep_their_order_on_ties() {
    let apps = vec![app("a", "a"), app("b", "b"), app("c", "c %U"), app("d", "d"), app("e", "e")];
    let mut history = History::new();
    history.set("b", 2);
    history.set("c ", 5);
    history.set("e", 2);
    let r = sort_by_usage(&apps, &history);
    assert_eq!(names(&r), vec!["c", "b", "e", "a", "d"]);
}

#[test]
fn fuzzy_matching_drops_what_does_not_match() {
    let apps = vec![app("Files", "nautilus"), app("Firefox", "firefox"), app("Terminal", "kitty")];
    let history = History::new();
    let r = match_apps(&apps, "fire", &history);
    assert_eq!(names(&r), vec!["Firefox"]);
    let r = match_apps(&apps, "fi", &history);
    assert_eq!(r.len(), 2);
    let r = match_apps(&apps, "zzz", &history);
    assert!(r.is_empty());
    let mut history = History::new();
    history.set("b", 1);
    let twins = vec![app("Same", "a"), app("Same", "b")];
    let r = match_apps(&twins, "same", &history);
    assert_eq!(r[0].action, "b");
    assert_eq!(r[1].action, "a");
}
