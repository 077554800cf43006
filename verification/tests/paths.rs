use centrum_launcher::paths::{
    depth_of, extension_of, hidden, join_path, name_of, path_segments, relative, shown,
};
use centrum_launcher::text::{chars_of, string_of};

fn c(s: &str) -> Vec<char> {
    chars_of(s)
}

#[test]
fn segments_names_and_depth() {
    let segs: Vec<String> = path_segments(&c("/a//b/./c/")).iter().map(string_of).collect();
    assert_eq!(segs, vec!["a", "b", "c"]);
    assert_eq!(string_of(&name_of(&c("/home/u/a.txt"))), "a.txt");
    assert_eq!(string_of(&name_of(&c("/home/u/dir/"))), "dir");
    assert_eq!(string_of(&name_of(&c("/home/u/.."))), "");
    assert_eq!(string_of(&name_of(&c("/"))), "");
    assert_eq!(depth_of(&c("/")), 1);
    assert_eq!(depth_of(&c("/home/u/a.txt")), 4);
    assert_eq!(depth_of(&c("a/b")), 2);
    assert_eq!(depth_of(&c("./a/b")), 3);
    assert_eq!(depth_of(&c("")), 0);
    for p in ["/", "/home/u/a.txt", "a/b", "./a/b", "/a/./b//c/", "/a/../b"] {
        assert_eq!(depth_of(&c(p)), std::path::Path::new(p).components().count(), "{}", p);
        let name = std::path::Path::new(p).file_name().map(|n| n.to_string_lossy().to_string()).unwrap_or_default();
        assert_eq!(string_of(&name_of(&c(p))), name, "{}", p);
    }
}

#[test]
fn hidden_paths_have_a_dotted_segment() {
    assert!(hidden(&c("/home/u/.cache/x")));
    assert!(hidden(&c("/home/u/.bashrc")));
    assert!(hidden(&c("/home/u/../v")));
    assert!(!hidden(&c("/home/u/./x")));
    assert!(!hidden(&c("/home/u/a.b/c.d")));
}

#[test]
fn paths_as_seen_from_the_home_directory() {
    let r = |p: &str, b: &str| string_of(&relative(&c(p), &c(b)));
    assert_eq!(r("/home/u/docs/a", "/home/u"), "docs/a");
    assert_eq!(r("/home/u/docs/a", "/home/u/"), "docs/a");
    assert_eq!(r("/home/u", "/home/u"), "");
    assert_eq!(r("/home/user/a", "/home/u"), "");
    assert_eq!(r("/srv/a", "/home/u"), "");
    assert_eq!(r("home/u/a", "/home/u"), "");
    let sh = |p: &str, h: &str, o: &str| string_of(&shown(&c(p), &c(h), &c(o)));
    assert_eq!(sh("/home/u/a", "/home/u", "x"), "/a");
    assert_eq!(sh("/home/user", "/home/u", "x"), "/ser");
    assert_eq!(sh("/etc/a", "/home/u", "a"), "a");
    assert_eq!(sh("/home/u", "/home/u", "x"), "/");
}

#[test]
fn extensions_and_joins() {
    let e = |n: &str| extension_of(&c(n)).map(|v| string_of(&v));
    assert_eq!(e("a.png"), Some("png".to_string()));
    assert_eq!(e("a.tar.gz"), Some("gz".to_string()));
    assert_eq!(e("a."), Some(String::new()));
    assert_eq!(e(".bashrc"), None);
    assert_eq!(e(".a.b"), Some("b".to_string()));
    assert_eq!(e("name"), None);
    assert_eq!(e(".."), None);
    assert_eq!(e(""), None);
    for n in ["a.png", "a.tar.gz", "a.", ".bashrc", ".a.b", "name", ".."] {
        let std_ext = std::path::Path::new(n).extension().map(|x| x.to_string_lossy().to_string());
        assert_eq!(e(n), std_ext, "{}", n);
    }
    let j = |b: &str, r: &str| string_of(&join_path(&c(b), &c(r)));
    for (b, r) in [("/home/u", "a/b"), ("/home/u/", "a"), ("/home/u", "/etc"), ("", "a"), ("/home/u", "")] {
        let mut p = std::path::PathBuf::from(b);
        p.push(r);
        assert_eq!(j(b, r), p.to_string_lossy(), "{:?} {:?}", b, r);
    }
}
