use centrum_launcher::candidate::{AppItem, IconSource};
use centrum_launcher::config::PowerOption;
use centrum_launcher::history::History;
use centrum_launcher::resolve::{merge, resolve as resolve_with};
use centrum_launcher::web::url_regex;
use centrum_launcher::system::check_system_commands;

fn app(name: &str, action: &str) -> AppItem {
    AppItem {
        name: name.to_string(),
        action: action.to_string(),
        terminal: false,
        icon: String::new(),
        desktop_id: format!("{}.desktop", name),
        system_icon: IconSource::Glyph,
    }
}

fn other(name: &str, id: &str) -> AppItem {
    AppItem::plain(name, "x", "", id)
}

fn options() -> Vec<PowerOption> {
    let o = |icon: &str, command: &str, class: &str| PowerOption {
        icon: icon.to_string(),
        command: command.to_string(),
        class: class.to_string(),
    };
    vec![
        o("S", "systemctl poweroff", "shutdown-btn"),
        o("R", "systemctl reboot", "reboot-btn"),
        o("L", "loginctl terminate-user $USER", "logout-btn"),
        o("T", "toggle-theme", "theme-btn"),
        o("X", "other", "custom-btn"),
    ]
}

fn resolve(
    text: &str,
    apps: &Vec<AppItem>,
    history: &History,
    options: &Vec<PowerOption>,
    engine: &str,
    calc: &Option<AppItem>,
    files: &Vec<AppItem>,
) -> Vec<AppItem> {
    let links = url_regex().expect("the expression compiles");
    resolve_with(text, apps, history, options, engine, calc, files, &links)
}

fn names(items: &[AppItem]) -> Vec<String> {
    items.iter().map(|i| i.name.clone()).collect()
}

#[test]
fn power_actions_by_exact_name() {
    let r = check_system_commands("shutdown", &options());
    assert_eq!(r.len(), 1);
    assert_eq!(r[0].name, "Shutdown");
    assert_eq!(r[0].action, "systemctl poweroff");
    assert_eq!(r[0].icon, "S");
    assert_eq!(r[0].desktop_id, "system");
    assert_eq!(names(&check_system_commands("LOG OUT", &options())), vec!["Log Out"]);
    assert_eq!(names(&check_system_commands("Toggle Theme", &options())), vec!["Toggle Theme"]);
    assert_eq!(names(&check_system_commands("reboot", &options())), vec!["Reboot"]);
    assert!(check_system_commands("shut", &options()).is_empty());
    assert!(check_system_commands("", &options()).is_empty());
    assert!(check_system_commands("other", &options()).is_empty());
}

#[test]
fn empty_query_lists_all_applications_by_usage() {
    let apps = vec![app("a", "a"), app("b", "b"), app("c", "c")];
    let mut history = History::new();
    history.set("c", 4);
    history.set("b", 4);
    let calc = Some(other("ignored", "calc"));
    let files = vec![other("ignored too", "file")];
    let r = resolve("", &apps, &history, &options(), "google", &calc, &files);
    assert_eq!(names(&r), vec!["b", "c", "a"]);
}

#[test]
fn web_comes_before_files_unless_the_query_is_a_path() {
    let apps = vec![app("example.org viewer", "example")];
    let history = History::new();
    let calc = Some(other("4", "calc"));
    let files = vec![other("/f1", "file"), other("/f2", "file")];
    let r = resolve("example.org", &apps, &history, &options(), "google", &calc, &files);
    assert_eq!(names(&r), vec!["4", "Open Link", "/f1", "/f2", "example.org viewer"]);
    assert_eq!(r[0].desktop_id, "calc");
    assert_eq!(r.iter().filter(|i| i.desktop_id == "calc").count(), 1);
    let r = resolve("~e.x", &apps, &history, &options(), "google", &None, &files);
    assert_eq!(names(&r)[..2], ["/f1".to_string(), "/f2".to_string()]);
    let r = merge("/e", &apps, &history, &options(), "google", &calc, &files, true, &vec![Some(1)]);
    assert_eq!(names(&r), vec!["4", "/f1", "/f2", "Open Link", "example.org viewer"]);
    let r = merge("e", &apps, &history, &options(), "google", &calc, &files, true, &vec![None]);
    assert_eq!(names(&r), vec!["4", "Open Link", "/f1", "/f2"]);
}

#[test]
fn hotkey_help_comes_first() {
    let apps = vec![app("hotkeys", "h")];
    let history = History::new();
    let r = resolve("hotkeys?", &apps, &history, &options(), "google", &None, &Vec::new());
    assert_eq!(r[0].name, "Show Hotkeys Help");
    assert_eq!(r[0].action, "SHOW_HOTKEYS");
    assert_eq!(r[0].desktop_id, "internal");
    assert_eq!(r[0].icon, "\u{f030c}");
    assert_eq!(r.len(), 1);
}

#[test]
fn power_actions_come_before_applications() {
    let apps = vec![app("Reboot Helper", "rh")];
    let history = History::new();
    let r = resolve("reboot", &apps, &history, &options(), "google", &None, &Vec::new());
    assert_eq!(names(&r), vec!["Reboot", "Reboot Helper"]);
}
