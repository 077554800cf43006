use centrum_launcher::files::{
    check_files, found_paths, is_file_search, list_dir, probe_paths, rank_found, DirEntry, FileStep,
    FoundPath, PathKind,
};

fn entry(name: &str, path: &str, is_dir: bool) -> DirEntry {
    DirEntry { name: name.to_string(), path: path.to_string(), is_dir }
}

fn found(path: &str, is_dir: bool) -> FoundPath {
    FoundPath { path: path.to_string(), is_dir }
}

#[test]
fn only_slash_and_tilde_queries_are_for_files() {
    assert!(is_file_search("/"));
    assert!(is_file_search("~/x"));
    assert!(!is_file_search("x/"));
    assert!(!is_file_search(""));
    match check_files("firefox", "/home/u", PathKind::Directory, PathKind::Directory) {
        FileStep::Done(items) => assert!(items.is_empty()),
        other => panic!("unexpected step {:?}", other),
    }
}

#[test]
fn a_lone_slash_lists_the_home_directory() {
    match check_files("/", "/home/u", PathKind::Directory, PathKind::Directory) {
        FileStep::List(dir) => assert_eq!(dir, "/home/u"),
        other => panic!("unexpected step {:?}", other),
    }
}

#[test]
fn the_paths_to_look_at() {
    assert_eq!(probe_paths("/etc/hosts", "/home/u"), ("/etc/hosts".to_string(), "/home/u/etc/hosts".to_string()));
    assert_eq!(probe_paths("~/notes", "/home/u"), ("/home/u/notes".to_string(), "/notes".to_string()));
    assert_eq!(probe_paths("~notes", "/home/u/"), ("/home/u/notes".to_string(), "/home/u/notes".to_string()));
    assert_eq!(probe_paths("//x", "/home/u"), ("//x".to_string(), "/x".to_string()));
    assert_eq!(probe_paths("/x", ""), ("/x".to_string(), "x".to_string()));
}

#[test]
fn an_existing_path_has_exactly_one_candidate() {
    match check_files("/etc/hosts", "/home/u", PathKind::File, PathKind::Missing) {
        FileStep::Done(items) => {
            assert_eq!(items.len(), 1);
            assert_eq!(items[0].action, "OPEN_PATH:/etc/hosts");
            assert_eq!(items[0].name, "/etc/hosts");
            assert_eq!(items[0].icon, "\u{f0214}");
            assert_eq!(items[0].desktop_id, "file");
        }
        other => panic!("unexpected step {:?}", other),
    }
    match check_files("/home/u/Music", "/home/u", PathKind::Directory, PathKind::Missing) {
        FileStep::Done(items) => {
            assert_eq!(items.len(), 1);
            assert_eq!(items[0].action, "OPEN_PATH:/home/u/Music");
            assert_eq!(items[0].name, "/Music");
            assert_eq!(items[0].icon, "\u{f024b}");
        }
        other => panic!("unexpected step {:?}", other),
    }
}

#[test]
fn a_missing_path_is_not_looked_up_in_the_home_directory() {
    match check_files("/docs", "/home/u", PathKind::Missing, PathKind::Directory) {
        FileStep::Search(pattern) => assert_eq!(pattern, "docs"),
        other => panic!("unexpected step {:?}", other),
    }
    match check_files("/docs", "/home/u", PathKind::Missing, PathKind::File) {
        FileStep::Search(pattern) => assert_eq!(pattern, "docs"),
        other => panic!("unexpected step {:?}", other),
    }
    match check_files("/Music/", "/home/u", PathKind::Missing, PathKind::Directory) {
        FileStep::List(dir) => assert_eq!(dir, "/home/u/Music/"),
        other => panic!("unexpected step {:?}", other),
    }
    match check_files("/Music/", "/home/u", PathKind::Missing, PathKind::File) {
        FileStep::Search(pattern) => assert_eq!(pattern, "Music/"),
        other => panic!("unexpected step {:?}", other),
    }
}

#[test]
fn tilde_stands_for_the_home_directory() {
    match check_files("~/Music/", "/home/u", PathKind::Directory, PathKind::Missing) {
        FileStep::List(dir) => assert_eq!(dir, "/home/u/Music/"),
        other => panic!("unexpected step {:?}", other),
    }
    match check_files("~", "/home/u", PathKind::Directory, PathKind::Missing) {
        FileStep::Done(items) => {
            assert_eq!(items[0].action, "OPEN_PATH:/home/u");
            assert_eq!(items[0].name, "/");
        }
        other => panic!("unexpected step {:?}", other),
    }
    match check_files("~", "/home/u", PathKind::Missing, PathKind::Missing) {
        FileStep::List(dir) => assert_eq!(dir, "/home/u"),
        other => panic!("unexpected step {:?}", other),
    }
    match check_files("~/opt/", "/home/u", PathKind::Missing, PathKind::Directory) {
        FileStep::List(dir) => assert_eq!(dir, "/opt/"),
        other => panic!("unexpected step {:?}", other),
    }
}

#[test]
fn a_missing_path_is_searched_for() {
    match check_files("/report", "/home/u", PathKind::Missing, PathKind::Missing) {
        FileStep::Search(pattern) => assert_eq!(pattern, "report"),
        other => panic!("unexpected step {:?}", other),
    }
    match check_files("~rep/", "/home/u", PathKind::Missing, PathKind::Missing) {
        FileStep::Search(pattern) => assert_eq!(pattern, "rep/"),
        other => panic!("unexpected step {:?}", other),
    }
}

#[test]
fn listing_shows_directories_first_then_by_name() {
    let entries = vec![
        entry("b.txt", "/home/u/b.txt", false),
        entry(".hidden", "/home/u/.hidden", true),
        entry("Zoo", "/home/u/Zoo", true),
        entry("a.txt", "/home/u/a.txt", false),
        entry("Music", "/home/u/Music", true),
        entry("B.txt", "/home/u/B.txt", false),
    ];
    let r = list_dir(&entries, "/home/u");
    let names: Vec<&str> = r.iter().map(|i| i.name.as_str()).collect();
    assert_eq!(names, vec!["/Music", "/Zoo", "/B.txt", "/a.txt", "/b.txt"]);
    assert_eq!(r[0].action, "OPEN_PATH:/home/u/Music");
    assert_eq!(r[0].icon, "\u{f024b}");
    assert_eq!(r[2].icon, "\u{f0214}");
    assert_eq!(r[2].desktop_id, "file");
    let outside = list_dir(&[entry("hosts", "/etc/hosts", false), entry("apt", "/etc/apt", true)].to_vec(), "/home/u");
    let names: Vec<&str> = outside.iter().map(|i| i.name.as_str()).collect();
    assert_eq!(names, vec!["apt", "hosts"]);
    assert!(list_dir(&Vec::new(), "/home/u").is_empty());
}

#[test]
fn printed_paths_are_the_lines_that_are_not_empty() {
    assert_eq!(
        found_paths("/home/u/a\n\n  /home/u/b  \r\n/home/u/c"),
        vec!["/home/u/a", "/home/u/b", "/home/u/c"]
    );
    assert!(found_paths("").is_empty());
    assert!(found_paths("\n\n").is_empty());
}

#[test]
fn found_paths_are_ranked() {
    let all = vec![
        found("/home/u/deep/down/notes.txt", false),
        found("/home/u/.cache/notes", false),
        found("/home/u/docs/notes", true),
        found("/home/u/my-notes", false),
        found("/home/u/notes-old", false),
        found("/home/u/Notes", false),
        found("/home/u/a/notes", false),
    ];
    let r = rank_found("notes", "/home/u", &all);
    let actions: Vec<&str> = r.iter().map(|i| i.action.as_str()).collect();
    assert_eq!(
        actions,
        vec![
            "OPEN_PATH:/home/u/Notes",
            "OPEN_PATH:/home/u/a/notes",
            "OPEN_PATH:/home/u/docs/notes",
            "OPEN_PATH:/home/u/.cache/notes",
            "OPEN_PATH:/home/u/notes-old",
            "OPEN_PATH:/home/u/deep/down/notes.txt",
            "OPEN_PATH:/home/u/my-notes",
        ]
    );
    assert_eq!(r[2].icon, "\u{f024b}");
    assert_eq!(r[0].name, "/Notes");
}

#[test]
fn a_pattern_with_a_slash_is_compared_with_the_path_from_home() {
    let all = vec![
        found("/home/u/x/docs/notes", false),
        found("/home/u/docs/notes/more", false),
        found("/home/u/Docs/Notes", false),
        found("/srv/docs/notes", false),
    ];
    let r = rank_found("docs/notes", "/home/u", &all);
    let actions: Vec<&str> = r.iter().map(|i| i.action.as_str()).collect();
    assert_eq!(
        actions,
        vec![
            "OPEN_PATH:/home/u/Docs/Notes",
            "OPEN_PATH:/home/u/docs/notes/more",
            "OPEN_PATH:/srv/docs/notes",
            "OPEN_PATH:/home/u/x/docs/notes",
        ]
    );
    assert_eq!(r[2].name, "/srv/docs/notes");
}

#[test]
fn a_search_offers_at_most_fifty_candidates() {
    let all: Vec<FoundPath> = (0..80).map(|i| found(&format!("/home/u/f{:02}", i), false)).collect();
    let r = rank_found("f", "/home/u", &all);
    assert_eq!(r.len(), 50);
    assert_eq!(r[0].action, "OPEN_PATH:/home/u/f00");
    assert_eq!(r[49].action, "OPEN_PATH:/home/u/f49");
}
