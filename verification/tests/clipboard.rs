use centrum_launcher::clipboard::{filter_by_name, get_clipboard_history};

#[test]
fn clipboard_entries_in_the_order_of_the_listing() {
    let listing = "12\tfirst entry\n11\tsecond\n10\tfirst entry\n9\t  second  \n8\tthird\n";
    let r = get_clipboard_history(listing);
    let names: Vec<&str> = r.iter().map(|i| i.name.as_str()).collect();
    assert_eq!(names, vec!["first entry", "second", "third"]);
    let actions: Vec<&str> = r.iter().map(|i| i.action.as_str()).collect();
    assert_eq!(actions, vec!["CLIPBOARD_SET:12", "CLIPBOARD_SET:11", "CLIPBOARD_SET:8"]);
    assert_eq!(r[0].icon, "\u{f014d}");
    assert_eq!(r[0].desktop_id, "clipboard");
    assert!(!r[0].terminal);
}

#[test]
fn binary_data_is_summed_up() {
    let r = get_clipboard_history("7\t[[ binary data 12 KiB png 1920x1080 ]]\n");
    assert_eq!(r.len(), 1);
    assert_eq!(r[0].name, "PNG 1920x1080 (12 KiB)");
    assert_eq!(r[0].icon, "\u{f0976}");
    assert_eq!(r[0].action, "CLIPBOARD_SET:7");
    let r = get_clipboard_history("7\t[[ binary data png ]]\n6\t[[ binary data ]]\n");
    let names: Vec<&str> = r.iter().map(|i| i.name.as_str()).collect();
    assert_eq!(names, vec!["[[ binary data png ]]", "[[ binary data ]]"]);
    let r = get_clipboard_history("5\t[[ binary data 2 MiB 300 KiB jpeg 10x10 ]]");
    assert_eq!(r[0].name, "JPEG 10x10 (2 MiB 300 KiB)");
}

#[test]
fn picture_paths_are_shown_by_name() {
    let r = get_clipboard_history("3\t/home/u/Pictures/Cat.PNG\n2\t/home/u/notes.txt\n1\t/home/u/.png\n");
    let names: Vec<&str> = r.iter().map(|i| i.name.as_str()).collect();
    assert_eq!(names, vec!["[FILE] Cat.PNG", "/home/u/notes.txt", "/home/u/.png"]);
    assert_eq!(r[0].icon, "\u{f021f}");
    assert_eq!(r[1].icon, "\u{f014d}");
    for ext in ["png", "jpg", "jpeg", "gif", "bmp", "webp", "svg"] {
        let r = get_clipboard_history(&format!("1\t/a/b.{}", ext));
        assert_eq!(r[0].name, format!("[FILE] b.{}", ext));
    }
}

#[test]
fn lines_that_give_no_candidate() {
    let listing = "no tab here\n\n3\t   \n2\t\u{1}\u{7f}\n1\tkept\u{1b}[0m text\n";
    let r = get_clipboard_history(listing);
    assert_eq!(r.len(), 1);
    assert_eq!(r[0].name, "kept[0m text");
    assert_eq!(r[0].action, "CLIPBOARD_SET:1");
    assert!(get_clipboard_history("").is_empty());
}

#[test]
fn any_other_content_is_text_without_control_characters() {
    let markup = "<meta http-equiv=\"content-type\" content=\"text/html; charset=utf-8\"><b>x</b>";
    let r = get_clipboard_history(&format!("4\t{}\n3\ta\u{fffd}b\u{85}c\u{0}\n", markup));
    assert_eq!(r.len(), 2);
    assert_eq!(r[0].name, markup);
    assert_eq!(r[0].action, "CLIPBOARD_SET:4");
    assert_eq!(r[0].icon, "\u{f014d}");
    assert_eq!(r[1].name, "a\u{fffd}bc");
}

#[test]
fn identifiers_lose_white_space_and_content_keeps_tabs_out() {
    let r = get_clipboard_history(" 42 \ta\tb\r\n");
    assert_eq!(r.len(), 1);
    assert_eq!(r[0].action, "CLIPBOARD_SET:42");
    assert_eq!(r[0].name, "ab");
}

#[test]
fn typed_text_narrows_the_entries_down() {
    let all = get_clipboard_history("3\tHello World\n2\tworld peace\n1\tother\n");
    let names = |v: &[centrum_launcher::candidate::AppItem]| -> Vec<String> {
        v.iter().map(|i| i.name.clone()).collect()
    };
    assert_eq!(names(&filter_by_name(&all, "WORLD")), vec!["Hello World", "world peace"]);
    assert_eq!(names(&filter_by_name(&all, "")), vec!["Hello World", "world peace", "other"]);
    assert!(filter_by_name(&all, "nothing").is_empty());
}
