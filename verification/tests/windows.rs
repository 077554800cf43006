use centrum_launcher::windows::{
    detect, find_window, Desktop, Generic, Hyprland, HyprlandClient, Niri, NiriWindow, WindowInfo,
    WindowManager,
};

fn window(id: &str, title: &str, app_id: &str) -> WindowInfo {
    WindowInfo { id: id.to_string(), title: title.to_string(), app_id: app_id.to_string() }
}

#[test]
fn the_desktop_is_told_from_the_session() {
    assert_eq!(detect("niri", "", false), Desktop::Niri);
    assert_eq!(detect("GNOME", "Niri-session", true), Desktop::Niri);
    assert_eq!(detect("Hyprland", "", false), Desktop::Hyprland);
    assert_eq!(detect("", "", true), Desktop::Hyprland);
    assert_eq!(detect("", "hyprland", false), Desktop::Generic);
    assert_eq!(detect("sway", "sway", false), Desktop::Generic);
}

#[test]
fn the_generic_desktop_lists_no_windows() {
    assert!(Generic.get_window_list().is_empty());
    assert!(Generic.focus_window("1").is_empty());
    assert!(Generic.center_cursor_or_window().is_empty());
    assert_eq!(Generic.logout(Some("me")), vec!["loginctl", "terminate-user", "me"]);
    assert!(Generic.logout(None).is_empty());
    assert!(Desktop::Generic.windows_from_output(b"[{\"id\": 1}]").is_empty());
}

#[test]
fn commands_of_hyprland_and_niri() {
    assert_eq!(Hyprland.get_window_list(), vec!["hyprctl", "clients", "-j"]);
    assert_eq!(Hyprland.focus_window("0xab"), vec!["hyprctl", "dispatch", "focuswindow", "address:0xab"]);
    assert_eq!(Hyprland.logout(Some("me")), vec!["hyprctl", "dispatch", "exit"]);
    assert!(Hyprland.center_cursor_or_window().is_empty());
    assert_eq!(Niri.get_window_list(), vec!["niri", "msg", "--json", "windows"]);
    assert_eq!(Niri.focus_window("12"), vec!["niri", "msg", "action", "focus-window", "--id", "12"]);
    assert_eq!(Niri.logout(None), vec!["niri", "msg", "action", "quit"]);
    assert_eq!(Niri.center_cursor_or_window(), vec!["niri", "msg", "action", "center-column"]);
    assert_eq!(Desktop::Niri.focus_window("3"), Niri.focus_window("3"));
    assert_eq!(Desktop::Hyprland.get_window_list(), Hyprland.get_window_list());
    assert_eq!(Desktop::Generic.logout(Some("u")), Generic.logout(Some("u")));
}

#[test]
fn windows_of_hyprland() {
    let out = br#"[{"address": "0x1", "title": "Mozilla Firefox", "class": "firefox", "pid": 7},
                  {"address": "0x2", "title": 5},
                  "not a record"]"#;
    let r = Hyprland::windows_from_json(out);
    assert_eq!(r.len(), 3);
    assert_eq!((r[0].id.as_str(), r[0].title.as_str(), r[0].app_id.as_str()), ("0x1", "Mozilla Firefox", "firefox"));
    assert_eq!((r[1].id.as_str(), r[1].title.as_str(), r[1].app_id.as_str()), ("0x2", "", ""));
    assert_eq!((r[2].id.as_str(), r[2].title.as_str(), r[2].app_id.as_str()), ("", "", ""));
    assert!(Hyprland::windows_from_json(b"{\"a\": 1}").is_empty());
    assert!(Hyprland::windows_from_json(b"not json").is_empty());
    assert!(Hyprland::windows_from_json(b"").is_empty());
    assert_eq!(Desktop::Hyprland.windows_from_output(out).len(), 3);
}

#[test]
fn windows_of_niri() {
    let out = br#"[{"id": 12, "title": "notes", "app_id": "org.gnome.TextEditor"},
                  {"id": "13", "title": "skipped"},
                  {"title": "skipped too"},
                  {"id": 18446744073709551615, "app_id": "x"},
                  {"id": -1}]"#;
    let r = Niri::windows_from_json(out);
    assert_eq!(r.len(), 2);
    assert_eq!((r[0].id.as_str(), r[0].title.as_str(), r[0].app_id.as_str()), ("12", "notes", "org.gnome.TextEditor"));
    assert_eq!((r[1].id.as_str(), r[1].title.as_str(), r[1].app_id.as_str()), ("18446744073709551615", "", "x"));
    assert!(Niri::windows_from_json(b"[").is_empty());
    assert_eq!(Desktop::Niri.windows_from_output(out).len(), 2);
    assert!(Niri::window_from(None, Some("t"), None).is_none());
    let w = Hyprland::window_from(None, Some("t"), None);
    assert_eq!((w.id.as_str(), w.title.as_str()), ("", "t"));
}

#[test]
fn the_first_matching_window_is_found() {
    let windows = vec![
        window("1", "Terminal", "kitty"),
        window("2", "Mozilla Firefox", "firefox"),
        window("3", "Firefox again", "Firefox"),
    ];
    assert_eq!(find_window(&windows, "firefox.desktop"), Some(1));
    assert_eq!(find_window(&windows, "FIREFOX"), Some(1));
    assert_eq!(find_window(&windows, "org.kitty.desktop"), Some(0));
    assert_eq!(find_window(&windows, "terminal"), Some(0));
    assert_eq!(find_window(&windows, "gimp.desktop"), None);
    assert_eq!(find_window(&windows, ""), Some(0));
    assert_eq!(find_window(&Vec::new(), "firefox"), None);
    let nameless = vec![window("9", "untitled", "")];
    assert_eq!(find_window(&nameless, "gimp.desktop"), None);
}

#[test]
fn windows_from_decoded_elements() {
    let text = |t: &str| Some(t.to_string());
    let clients = vec![
        HyprlandClient { address: text("0x1"), title: text("one"), class: text("app") },
        HyprlandClient { address: None, title: text("two"), class: None },
    ];
    let r = Hyprland::windows_from_clients(&clients);
    assert_eq!(r.len(), 2);
    assert_eq!((r[0].id.as_str(), r[0].title.as_str(), r[0].app_id.as_str()), ("0x1", "one", "app"));
    assert_eq!((r[1].id.as_str(), r[1].title.as_str(), r[1].app_id.as_str()), ("", "two", ""));
    assert!(Hyprland::windows_from_clients(&Vec::new()).is_empty());
    let records = vec![
        NiriWindow { id: None, title: text("skipped"), app_id: None },
        NiriWindow { id: Some(0), title: None, app_id: text("a") },
        NiriWindow { id: Some(907), title: text("t"), app_id: None },
    ];
    let r = Niri::windows_from_records(&records);
    assert_eq!(r.len(), 2);
    assert_eq!((r[0].id.as_str(), r[0].title.as_str(), r[0].app_id.as_str()), ("0", "", "a"));
    assert_eq!((r[1].id.as_str(), r[1].title.as_str(), r[1].app_id.as_str()), ("907", "t", ""));
    assert!(Niri::windows_from_records(&Vec::new()).is_empty());
}
