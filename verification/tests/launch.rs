use centrum_launcher::history::History;
use centrum_launcher::launch::{action_key, launch_app, wants_window_list, LaunchEffect};
use centrum_launcher::windows::WindowInfo;

fn window(id: &str, title: &str, app_id: &str) -> WindowInfo {
    WindowInfo { id: id.to_string(), title: title.to_string(), app_id: app_id.to_string() }
}

#[test]
fn placeholders_share_one_history_entry() {
    let mut history = History::new();
    let none: Vec<WindowInfo> = Vec::new();
    let first = launch_app("app %f", false, &mut history, Some("app.desktop"), false, "kitty", &none);
    let second = launch_app("app %F", false, &mut history, Some("app.desktop"), false, "kitty", &none);
    assert_eq!(history.len(), 1);
    assert_eq!(history.get("app "), 2);
    match first {
        LaunchEffect::Spawn { command } => assert_eq!(command, "setsid app >/dev/null 2>&1 &"),
        other => panic!("unexpected effect {:?}", other),
    }
    match second {
        LaunchEffect::Spawn { command } => assert_eq!(command, "setsid app >/dev/null 2>&1 &"),
        other => panic!("unexpected effect {:?}", other),
    }
}

#[test]
fn focus_reuse_focuses_and_does_not_spawn() {
    let mut history = History::new();
    let windows = vec![
        window("0x1", "Terminal", "kitty"),
        window("0x2", "Mozilla Firefox", "firefox"),
    ];
    assert!(wants_window_list("firefox %u", Some("firefox.desktop"), true));
    let effect =
        launch_app("firefox %u", false, &mut history, Some("firefox.desktop"), true, "kitty", &windows);
    match effect {
        LaunchEffect::Focus { window } => assert_eq!(window, "0x2"),
        other => panic!("unexpected effect {:?}", other),
    }
    assert_eq!(history.get("firefox "), 1);
}

#[test]
fn focus_reuse_is_skipped_when_switched_off() {
    let mut history = History::new();
    let windows = vec![window("7", "Mozilla Firefox", "firefox")];
    assert!(!wants_window_list("firefox", Some("firefox.desktop"), false));
    let effect =
        launch_app("firefox", false, &mut history, Some("firefox.desktop"), false, "kitty", &windows);
    match effect {
        LaunchEffect::Spawn { command } => assert_eq!(command, "setsid firefox >/dev/null 2>&1 &"),
        other => panic!("unexpected effect {:?}", other),
    }
}

#[test]
fn focus_reuse_is_skipped_for_files_links_and_results() {
    assert!(!wants_window_list("OPEN_PATH:/tmp/a", Some("file"), true));
    assert!(!wants_window_list("xdg-open https://a.b", Some("web"), true));
    assert!(!wants_window_list("COPY:4", Some("calc"), true));
    assert!(!wants_window_list("firefox", None, true));
}

#[test]
fn title_match_in_either_direction() {
    let mut history = History::new();
    let windows = vec![window("a", "notes - gedit", "org.example.Other")];
    let effect = launch_app("gedit", false, &mut history, Some("GEdit.desktop"), true, "x", &windows);
    match effect {
        LaunchEffect::Focus { window } => assert_eq!(window, "a"),
        other => panic!("unexpected effect {:?}", other),
    }
    let mut history = History::new();
    let windows = vec![window("b", "", "code")];
    let effect =
        launch_app("code", false, &mut history, Some("com.vendor.code.desktop"), true, "x", &windows);
    match effect {
        LaunchEffect::Focus { window } => assert_eq!(window, "b"),
        other => panic!("unexpected effect {:?}", other),
    }
}

#[test]
fn clipboard_entry_is_restored_without_history() {
    let mut history = History::new();
    let none: Vec<WindowInfo> = Vec::new();
    let effect = launch_app("CLIPBOARD_SET:42", false, &mut history, None, true, "kitty", &none);
    match effect {
        LaunchEffect::ClipboardSet { id } => assert_eq!(id, "42"),
        other => panic!("unexpected effect {:?}", other),
    }
    assert_eq!(history.len(), 0);
}

#[test]
fn copy_titles_depend_on_the_source() {
    let mut history = History::new();
    let none: Vec<WindowInfo> = Vec::new();
    let cases = [
        (Some("color"), "Color Copied"),
        (Some("calc"), "Result Copied"),
        (Some("firefox.desktop"), "Copied"),
        (None, "Copied"),
    ];
    for (id, expected) in cases {
        let effect = launch_app("COPY:#FF0000FF", false, &mut history, id, true, "kitty", &none);
        match effect {
            LaunchEffect::Copy { value, title } => {
                assert_eq!(value, "#FF0000FF");
                assert_eq!(title, expected);
            }
            other => panic!("unexpected effect {:?}", other),
        }
    }
    assert_eq!(history.len(), 0);
}

#[test]
fn paths_and_links_are_opened_and_counted_by_target() {
    let mut history = History::new();
    let none: Vec<WindowInfo> = Vec::new();
    let effect =
        launch_app("OPEN_PATH:/home/u/a b.txt", false, &mut history, Some("file"), true, "kitty", &none);
    match effect {
        LaunchEffect::Open { target } => assert_eq!(target, "/home/u/a b.txt"),
        other => panic!("unexpected effect {:?}", other),
    }
    let effect = launch_app(
        "xdg-open \"https://example.org/x\"",
        false,
        &mut history,
        Some("web"),
        true,
        "kitty",
        &none,
    );
    match effect {
        LaunchEffect::Open { target } => assert_eq!(target, "https://example.org/x"),
        other => panic!("unexpected effect {:?}", other),
    }
    assert_eq!(history.get("/home/u/a b.txt"), 1);
    assert_eq!(history.get("https://example.org/x"), 1);
    assert_eq!(history.len(), 2);
}

#[test]
fn terminal_commands_are_wrapped() {
    let mut history = History::new();
    let none: Vec<WindowInfo> = Vec::new();
    let effect = launch_app("htop %i %c %k", true, &mut history, Some("htop.desktop"), false, "foot", &none);
    match effect {
        LaunchEffect::Spawn { command } => {
            assert_eq!(command, "setsid foot -e htop >/dev/null 2>&1 &")
        }
        other => panic!("unexpected effect {:?}", other),
    }
    assert_eq!(history.get("htop   "), 1);
}

#[test]
fn empty_action_does_nothing() {
    let mut history = History::new();
    let none: Vec<WindowInfo> = Vec::new();
    let effect = launch_app("", false, &mut history, Some("x"), true, "kitty", &none);
    assert!(matches!(effect, LaunchEffect::Nothing));
    assert_eq!(history.len(), 0);
}

#[test]
fn action_keys() {
    assert_eq!(action_key("app %f"), "app ");
    assert_eq!(action_key("app %F"), "app ");
    assert_eq!(action_key("a %u %U %d %D %n %N b"), "a       b");
    assert_eq!(action_key("xdg-open xdg-open \"\"x\"\""), "x");
    assert_eq!(action_key("OPEN_PATH:%f"), "%f");
    assert_eq!(action_key("%%ff"), "%f");
}
