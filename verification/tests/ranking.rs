use centrum_launcher::candidate::{duplicate_all, first, pick, ranked, source_kind, AppItem, SourceKind};
use centrum_launcher::config::{default_true, detect_terminal, terminals, WindowState};
use centrum_launcher::ranking::{order_of, Rank};
use centrum_launcher::text::chars_of;

fn rank(score: i64, uses: u32, demerit: u64, depth: usize, label: &str) -> Rank {
    Rank { score, uses, demerit, depth, label: chars_of(label) }
}

#[test]
fn ranks_go_by_score_usage_demerit_depth_and_label() {
    let a = rank(5, 0, 0, 0, "");
    let b = rank(4, 9, 0, 0, "");
    let c = rank(4, 8, 0, 0, "");
    let d = rank(4, 8, 1, 0, "");
    let e = rank(4, 8, 1, 2, "a");
    let f = rank(4, 8, 1, 2, "b");
    let all = [&a, &b, &c, &d, &e, &f];
    for i in 0..all.len() {
        for j in 0..all.len() {
            assert_eq!(all[i].precedes(all[j]), i < j, "{} {}", i, j);
        }
    }
    assert!(rank(i64::MAX, 0, 0, 0, "").precedes(&rank(i64::MIN, u32::MAX, 0, 0, "")));
}

#[test]
fn the_order_is_stable() {
    let ranks = vec![
        rank(1, 0, 0, 0, "x"),
        rank(3, 0, 0, 0, "x"),
        rank(1, 0, 0, 0, "x"),
        rank(3, 0, 0, 0, "x"),
        rank(2, 0, 0, 0, "x"),
        rank(3, 0, 0, 0, "a"),
    ];
    assert_eq!(order_of(&ranks), vec![5, 1, 3, 4, 0, 2]);
    assert!(order_of(&Vec::new()).is_empty());
    assert_eq!(order_of(&vec![rank(0, 0, 0, 0, "")]), vec![0]);
}

#[test]
fn the_order_is_that_of_a_stable_sort() {
    let mut seed: u64 = 12345;
    let mut ranks = Vec::new();
    let mut keys = Vec::new();
    for i in 0..200usize {
        seed = seed.wrapping_mul(6364136223846793005).wrapping_add(1442695040888963407);
        let score = ((seed >> 33) % 5) as i64;
        let uses = ((seed >> 40) % 3) as u32;
        ranks.push(rank(score, uses, 0, 0, ""));
        keys.push((std::cmp::Reverse(score), std::cmp::Reverse(uses), i));
    }
    keys.sort();
    let expected: Vec<usize> = keys.iter().map(|k| k.2).collect();
    assert_eq!(order_of(&ranks), expected);
}

#[test]
fn candidates_are_picked_in_order() {
    let items: Vec<AppItem> = ["a", "b", "c"].iter().map(|n| AppItem::plain(n, "x", "", "file")).collect();
    let names = |v: &[AppItem]| -> Vec<String> { v.iter().map(|i| i.name.clone()).collect() };
    assert_eq!(names(&pick(&items, &vec![2, 0, 2])), vec!["c", "a", "c"]);
    assert_eq!(names(&duplicate_all(&items)), vec!["a", "b", "c"]);
    assert_eq!(names(&first(&items, 2)), vec!["a", "b"]);
    assert_eq!(names(&first(&items, 9)), vec!["a", "b", "c"]);
    let ranks = vec![rank(0, 0, 0, 0, "b"), rank(0, 0, 0, 0, "c"), rank(0, 0, 0, 0, "a")];
    assert_eq!(names(&ranked(&items, &ranks)), vec!["c", "a", "b"]);
}

#[test]
fn kinds_of_sources() {
    assert_eq!(source_kind("file"), SourceKind::File);
    assert_eq!(source_kind("web"), SourceKind::Web);
    assert_eq!(source_kind("calc"), SourceKind::Calc);
    assert_eq!(source_kind("clipboard"), SourceKind::Clipboard);
    assert_eq!(source_kind("system"), SourceKind::System);
    assert_eq!(source_kind("internal"), SourceKind::Internal);
    assert_eq!(source_kind("color"), SourceKind::Color);
    assert_eq!(source_kind("firefox.desktop"), SourceKind::App);
    assert_eq!(source_kind(""), SourceKind::App);
}

#[test]
fn the_state_of_a_first_run() {
    let s = WindowState::default();
    assert_eq!((s.width, s.height, s.x, s.y), (600, 450, -1, -1));
    assert_eq!(s.history.len(), 0);
    assert!(!s.show_hidden);
    assert!(s.show_hotkeys);
    assert!(default_true());
}

#[test]
fn the_first_installed_terminal_is_chosen() {
    assert_eq!(
        terminals(),
        vec!["kitty", "alacritty", "ghostty", "foot", "wezterm", "gnome-terminal", "konsole", "xterm"]
    );
    assert_eq!(detect_terminal(&vec![false, false, true, true, false, false, false, false]), "ghostty");
    assert_eq!(detect_terminal(&vec![true]), "kitty");
    assert_eq!(detect_terminal(&vec![false; 8]), "xterm");
    assert_eq!(detect_terminal(&Vec::new()), "xterm");
    assert_eq!(detect_terminal(&vec![false, false, false, false, false, false, false, false, true]), "xterm");
}
