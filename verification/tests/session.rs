use centrum_launcher::apps::Override;
use centrum_launcher::candidate::{AppItem, IconSource};
use centrum_launcher::color::Opacity;
use centrum_launcher::config::PowerOption;
use centrum_launcher::history::History;
use centrum_launcher::web::url_regex;
use centrum_launcher::session::{
    completed_text, handle_app_edit, EditingMode, Key, KeyOutcome, LauncherState, QueryPlan,
    SelectionMode,
};

fn app(name: &str, action: &str) -> AppItem {
    AppItem {
        name: name.to_string(),
        action: action.to_string(),
        terminal: name == "Top",
        icon: format!("icon-{}", name),
        desktop_id: format!("{}.desktop", name.to_lowercase()),
        system_icon: IconSource::Glyph,
    }
}

fn options() -> Vec<PowerOption> {
    let o = |command: &str, class: &str| PowerOption {
        icon: String::new(),
        command: command.to_string(),
        class: class.to_string(),
    };
    vec![o("poweroff", "shutdown-btn"), o("reboot", "reboot-btn"), o("logout", "logout-btn")]
}

fn session() -> LauncherState {
    let apps = vec![app("Files", "nautilus"), app("Firefox", "firefox %u"), app("Top", "top")];
    let mut history = History::new();
    history.set("firefox ", 3);
    let links = url_regex().expect("the expression compiles");
    LauncherState::new(apps, options(), history, "nerd", "google", links, true)
}

fn names(items: &[AppItem]) -> Vec<String> {
    items.iter().map(|i| i.name.clone()).collect()
}

#[test]
fn the_session_starts_with_the_applications_by_usage() {
    let s = session();
    assert_eq!(names(&s.filtered_apps), vec!["Firefox", "Files", "Top"]);
    assert_eq!(names(&s.all_apps), vec!["Files", "Firefox", "Top"]);
    assert_eq!(s.mode, SelectionMode::Apps);
    assert_eq!(s.editing_mode, EditingMode::Idle);
    assert_eq!(s.app_index, 0);
    assert_eq!(s.cursor(), Some(0));
    assert!(s.show_hotkeys && !s.show_hidden);
}

#[test]
fn arrows_move_the_cursor_and_stop_at_the_ends() {
    let mut s = session();
    assert!(matches!(s.handle_key(Key::Up), KeyOutcome::Handled));
    assert_eq!(s.app_index, 0);
    for expected in [1, 2, 2, 2] {
        assert!(matches!(s.handle_key(Key::Down), KeyOutcome::Handled));
        assert_eq!(s.app_index, expected);
    }
    assert!(matches!(s.handle_key(Key::Up), KeyOutcome::Handled));
    assert_eq!(s.app_index, 1);
    assert!(matches!(s.handle_key(Key::Left), KeyOutcome::Ignored));
    assert!(matches!(s.handle_key(Key::Right), KeyOutcome::Ignored));
    assert!(matches!(s.handle_key(Key::Other), KeyOutcome::Ignored));
    assert!(matches!(s.handle_key(Key::Printable), KeyOutcome::Ignored));
}

#[test]
fn tab_toggles_between_applications_and_power() {
    let mut s = session();
    s.power_index = 2;
    assert!(matches!(s.handle_key(Key::Tab), KeyOutcome::Handled));
    assert_eq!(s.mode, SelectionMode::Power);
    assert_eq!(s.power_index, 0);
    assert!(matches!(s.handle_key(Key::Left), KeyOutcome::Handled));
    assert_eq!(s.power_index, 2);
    assert!(matches!(s.handle_key(Key::Right), KeyOutcome::Handled));
    assert_eq!(s.power_index, 0);
    assert!(matches!(s.handle_key(Key::Right), KeyOutcome::Handled));
    assert_eq!(s.power_index, 1);
    match s.handle_key(Key::Enter) {
        KeyOutcome::Launch { action, terminal, desktop_id } => {
            assert_eq!(action, "reboot");
            assert!(!terminal);
            assert_eq!(desktop_id, None);
        }
        other => panic!("unexpected outcome {:?}", other),
    }
    assert!(matches!(s.handle_key(Key::Tab), KeyOutcome::Handled));
    assert_eq!(s.mode, SelectionMode::Apps);
}

#[test]
fn a_character_in_power_mode_goes_back_to_the_applications() {
    let mut s = session();
    s.handle_key(Key::Down);
    s.handle_key(Key::Tab);
    assert!(matches!(s.handle_key(Key::Printable), KeyOutcome::PassToText));
    assert_eq!(s.mode, SelectionMode::Apps);
    assert_eq!(s.app_index, 0);
}

#[test]
fn enter_launches_the_highlighted_candidate() {
    let mut s = session();
    s.handle_key(Key::Down);
    s.handle_key(Key::Down);
    match s.handle_key(Key::Enter) {
        KeyOutcome::Launch { action, terminal, desktop_id } => {
            assert_eq!(action, "top");
            assert!(terminal);
            assert_eq!(desktop_id, Some("top.desktop".to_string()));
        }
        other => panic!("unexpected outcome {:?}", other),
    }
    s.on_text_changed("hotkeys?", &None, &Vec::new());
    assert!(matches!(s.handle_key(Key::Enter), KeyOutcome::ShowHotkeys));
    s.on_text_changed("zzzz", &None, &Vec::new());
    assert!(s.filtered_apps.is_empty());
    assert!(matches!(s.handle_key(Key::Enter), KeyOutcome::Handled));
    assert!(matches!(s.handle_key(Key::Escape), KeyOutcome::Close));
}

#[test]
fn typed_text_is_resolved() {
    let mut s = session();
    assert_eq!(s.plan_query("fire"), QueryPlan::Providers);
    s.handle_key(Key::Down);
    assert!(s.on_text_changed("fire", &None, &Vec::new()).is_none());
    assert_eq!(names(&s.filtered_apps), vec!["Firefox"]);
    assert_eq!(s.app_index, 0);
    s.is_syncing = true;
    assert_eq!(s.plan_query("f"), QueryPlan::Ignore);
    s.on_text_changed("f", &None, &Vec::new());
    assert_eq!(names(&s.filtered_apps), vec!["Firefox"]);
}

#[test]
fn a_typed_color_enters_the_color_picker() {
    let mut s = session();
    assert_eq!(s.plan_query("#ff8000"), QueryPlan::Color);
    let c = s.on_text_changed("#ff8000", &None, &Vec::new()).expect("a color");
    assert_eq!((c.red, c.green, c.blue), (255, 128, 0));
    assert!(matches!(c.opacity, Opacity::Full));
    assert_eq!(s.mode, SelectionMode::Color);
    assert_eq!(names(&s.filtered_apps), vec!["Firefox", "Files", "Top"]);
    assert!(s.on_text_changed("#ff80", &None, &Vec::new()).is_none());
    assert_eq!(s.mode, SelectionMode::Color);
    for key in [Key::Tab, Key::Up, Key::Down, Key::Left, Key::Right] {
        assert!(matches!(s.handle_key(key), KeyOutcome::ColorControl));
        assert_eq!(s.mode, SelectionMode::Color);
    }
    assert!(matches!(s.handle_key(Key::Enter), KeyOutcome::CopyColor));
    assert!(matches!(s.handle_key(Key::ColorPicker), KeyOutcome::ClearText));
    assert_eq!(s.mode, SelectionMode::Apps);
    assert_eq!(names(&s.filtered_apps), vec!["Files", "Firefox", "Top"]);
    assert!(matches!(s.handle_key(Key::ColorPicker), KeyOutcome::ClearText));
    assert_eq!(s.mode, SelectionMode::Color);
}

#[test]
fn the_clipboard_history_is_shown_and_narrowed_down() {
    let mut s = session();
    assert!(matches!(s.handle_key(Key::Clipboard), KeyOutcome::LoadClipboard));
    assert_eq!(s.mode, SelectionMode::Apps);
    s.enter_clipboard("3\tnewest\n2\tolder\n1\tnewest\n");
    assert_eq!(s.mode, SelectionMode::Clipboard);
    assert_eq!(names(&s.filtered_apps), vec!["newest", "older"]);
    assert_eq!(s.plan_query("#fff"), QueryPlan::FilterClipboard);
    s.on_text_changed("", &None, &Vec::new());
    assert_eq!(names(&s.filtered_apps), vec!["newest", "older"]);
    s.handle_key(Key::Down);
    assert_eq!(s.clip_index, 1);
    s.on_text_changed("OLD", &None, &Vec::new());
    assert_eq!(names(&s.filtered_apps), vec!["older"]);
    assert_eq!(s.clip_index, 0);
    match s.handle_key(Key::Enter) {
        KeyOutcome::Launch { action, terminal, desktop_id } => {
            assert_eq!(action, "CLIPBOARD_SET:2");
            assert!(!terminal);
            assert_eq!(desktop_id, None);
        }
        other => panic!("unexpected outcome {:?}", other),
    }
    assert!(matches!(s.handle_key(Key::Clipboard), KeyOutcome::ClearText));
    assert_eq!(s.mode, SelectionMode::Apps);
    assert_eq!(names(&s.filtered_apps), vec!["Files", "Firefox", "Top"]);
    assert_eq!(names(&s.clipboard_items), vec!["newest", "older"]);
}

#[test]
fn tab_from_the_clipboard_settles_the_cursor() {
    let mut s = session();
    s.handle_key(Key::Down);
    s.handle_key(Key::Down);
    s.enter_clipboard("1\tonly\n");
    assert!(matches!(s.handle_key(Key::Tab), KeyOutcome::Handled));
    assert_eq!(s.mode, SelectionMode::Apps);
    assert_eq!(s.app_index, 0);
}

#[test]
fn delete_forgets_what_the_history_remembers() {
    let mut s = session();
    s.history.set("/home/u/a.txt", 2);
    s.history.set("https://example.org", 1);
    assert!(matches!(s.handle_key(Key::Delete), KeyOutcome::Ignored));
    assert_eq!(s.history.len(), 3);
    let files = vec![AppItem::plain("/a.txt", "OPEN_PATH:/home/u/a.txt", "", "file")];
    s.on_text_changed("/a.txt", &None, &files);
    assert_eq!(s.filtered_apps[0].desktop_id, "file");
    assert!(matches!(s.handle_key(Key::Delete), KeyOutcome::Requery));
    assert_eq!(s.history.get("/home/u/a.txt"), 0);
    assert_eq!(s.history.len(), 2);
    s.on_text_changed("example.org", &None, &Vec::new());
    assert_eq!(s.filtered_apps[0].action, "xdg-open https://example.org");
    assert!(matches!(s.handle_key(Key::Delete), KeyOutcome::Requery));
    assert_eq!(s.history.get("https://example.org"), 0);
    assert_eq!(s.history.get("firefox "), 3);
}

#[test]
fn right_completes_the_path_of_a_file() {
    let mut s = session();
    let files = vec![AppItem::plain("/Music", "OPEN_PATH:/home/u/Music", "", "file")];
    s.on_text_changed("/Mus", &None, &files);
    match s.handle_key(Key::Right) {
        KeyOutcome::CompletePath { path } => assert_eq!(path, "/home/u/Music"),
        other => panic!("unexpected outcome {:?}", other),
    }
    assert_eq!(completed_text("/home/u/Music", "/home/u", true), "/Music/");
    assert_eq!(completed_text("/home/u/a.txt", "/home/u", false), "/a.txt");
    assert_eq!(completed_text("/home/u", "/home/u", true), "/");
    assert_eq!(completed_text("/etc/", "/home/u", false), "/etc/");
    assert_eq!(completed_text("/etc", "/home/u", true), "/etc/");
}

#[test]
fn renaming_an_application() {
    let mut s = session();
    let mut store: Vec<Override> = Vec::new();
    match s.handle_key(Key::Rename) {
        KeyOutcome::BeginEdit { label, text, glyph } => {
            assert_eq!(label, "Rename App");
            assert_eq!(text, "Firefox");
            assert!(!glyph);
        }
        other => panic!("unexpected outcome {:?}", other),
    }
    assert_eq!(s.editing_mode, EditingMode::Rename);
    assert_eq!(s.editing_id, Some("firefox.desktop".to_string()));
    for key in [Key::Down, Key::Tab, Key::Delete, Key::Printable, Key::Clipboard, Key::Rename] {
        assert!(matches!(s.handle_key(key), KeyOutcome::Ignored));
    }
    assert_eq!(s.app_index, 0);
    assert_eq!(s.plan_query("x"), QueryPlan::Ignore);
    assert!(matches!(s.handle_key(Key::Enter), KeyOutcome::CommitEdit));
    assert!(handle_app_edit(&mut s, &mut store, "Fox"));
    assert_eq!(s.editing_mode, EditingMode::Idle);
    assert_eq!(s.editing_id, None);
    assert_eq!(store.len(), 1);
    assert_eq!(store[0].key, "firefox.desktop");
    assert_eq!(store[0].app.name, Some("Fox".to_string()));
    assert!(!handle_app_edit(&mut s, &mut store, "again"));
    assert_eq!(store.len(), 1);
}

#[test]
fn editing_an_icon_and_cancelling() {
    let mut s = session();
    let mut store: Vec<Override> = Vec::new();
    match s.handle_key(Key::EditIcon) {
        KeyOutcome::BeginEdit { label, text, glyph } => {
            assert_eq!(label, "Edit Icon");
            assert_eq!(text, "icon-Firefox");
            assert!(glyph);
        }
        other => panic!("unexpected outcome {:?}", other),
    }
    assert!(matches!(s.handle_key(Key::Escape), KeyOutcome::EditCancelled));
    assert_eq!(s.editing_mode, EditingMode::Idle);
    assert_eq!(s.editing_id, None);
    s.handle_key(Key::EditIcon);
    assert!(handle_app_edit(&mut s, &mut store, "G"));
    assert_eq!(store[0].app.icon, Some("G".to_string()));
    match s.handle_key(Key::ToggleIconMode) {
        KeyOutcome::SaveIconMode { mode } => assert_eq!(mode, "system"),
        other => panic!("unexpected outcome {:?}", other),
    }
    assert_eq!(s.icon_mode, "system");
    match s.handle_key(Key::EditIcon) {
        KeyOutcome::BeginEdit { text, .. } => assert_eq!(text, ""),
        other => panic!("unexpected outcome {:?}", other),
    }
    assert!(handle_app_edit(&mut s, &mut store, "/p.png"));
    assert_eq!(store[0].app.system_icon, Some("/p.png".to_string()));
    assert_eq!(store[0].app.icon, Some("G".to_string()));
    match s.handle_key(Key::ToggleIconMode) {
        KeyOutcome::SaveIconMode { mode } => assert_eq!(mode, "nerd"),
        other => panic!("unexpected outcome {:?}", other),
    }
}

#[test]
fn only_applications_can_be_edited_or_hidden() {
    let mut s = session();
    s.on_text_changed("example.org", &None, &Vec::new());
    assert_eq!(s.filtered_apps[0].desktop_id, "web");
    assert!(matches!(s.handle_key(Key::Rename), KeyOutcome::Ignored));
    assert!(matches!(s.handle_key(Key::EditIcon), KeyOutcome::Ignored));
    assert!(matches!(s.handle_key(Key::HideApp), KeyOutcome::Ignored));
    assert_eq!(s.editing_mode, EditingMode::Idle);
    let mut s = session();
    match s.handle_key(Key::HideApp) {
        KeyOutcome::HideApp { id, hidden } => {
            assert_eq!(id, "firefox.desktop");
            assert!(hidden);
        }
        other => panic!("unexpected outcome {:?}", other),
    }
    assert!(matches!(s.handle_key(Key::ToggleHidden), KeyOutcome::ReloadApps));
    assert!(s.show_hidden);
    s.handle_key(Key::Down);
    s.handle_key(Key::Down);
    s.set_apps(vec![app("Hidden", "h")], true);
    assert_eq!(s.app_index, 0);
    assert_eq!(names(&s.filtered_apps), vec!["Hidden"]);
    match s.handle_key(Key::HideApp) {
        KeyOutcome::HideApp { id, hidden } => {
            assert_eq!(id, "hidden.desktop");
            assert!(!hidden);
        }
        other => panic!("unexpected outcome {:?}", other),
    }
    s.replace_apps(vec![app("A", "a"), app("B", "b")]);
    assert_eq!(names(&s.filtered_apps), vec!["Hidden"]);
    assert_eq!(names(&s.all_apps), vec!["A", "B"]);
    s.set_apps(Vec::new(), false);
    assert_eq!(s.app_index, 0);
    assert_eq!(s.cursor(), None);
}
