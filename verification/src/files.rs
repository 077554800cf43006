//! The file provider.
//!
//! Looking at the file system is the caller's part.  The provider says which
//! paths it must know about, decides from what they are whether one path is
//! offered, a directory is listed or a search is run, and orders what a
//! listing or a search brought.

use vstd::prelude::*;
use crate::candidate::{first, item_views, none_from, plain_from, plain_item, ranked, AppItem,
    AppItemView};
use crate::paths::{depth, depth_of, file_name, hidden, is_hidden, join_path, joined_path, name_of,
    relative, relative_to, shown, shown_path};
use crate::ranking::{lemma_sort_order, picked, rank_views, sort_order, Rank, RankView};
use crate::text::{chars_of, concat, copy, ends_with, has_char, has_prefix, has_suffix, lines,
    lower, lowercase, same, slice, starts_with, string_of, text_lines, trim, trimmed, views};

verus! {

/// What a path leads to.
#[derive(Clone, Copy, PartialEq, Eq, Structural, Debug)]
pub enum PathKind {
    Missing,
    File,
    Directory,
}

/// One entry of a directory: its name, its path, and whether it is a
/// directory itself.
#[derive(Clone, Debug)]
pub struct DirEntry {
    pub name: String,
    pub path: String,
    pub is_dir: bool,
}

/// The mathematical value of a [`DirEntry`].
pub struct DirEntryView {
    pub name: Seq<char>,
    pub path: Seq<char>,
    pub is_dir: bool,
}

impl View for DirEntry {
    type V = DirEntryView;

    open spec fn view(&self) -> DirEntryView {
        DirEntryView { name: self.name@, path: self.path@, is_dir: self.is_dir }
    }
}

/// The views of a list of directory entries.
pub open spec fn entry_views(entries: Seq<DirEntry>) -> Seq<DirEntryView> {
    entries.map_values(|e: DirEntry| e@)
}

/// One path that a search found, and whether it is a directory.
#[derive(Clone, Debug)]
pub struct FoundPath {
    pub path: String,
    pub is_dir: bool,
}

/// The mathematical value of a [`FoundPath`].
pub struct FoundPathView {
    pub path: Seq<char>,
    pub is_dir: bool,
}

impl View for FoundPath {
    type V = FoundPathView;

    open spec fn view(&self) -> FoundPathView {
        FoundPathView { path: self.path@, is_dir: self.is_dir }
    }
}

/// The views of a list of found paths.
pub open spec fn found_views(found: Seq<FoundPath>) -> Seq<FoundPathView> {
    found.map_values(|f: FoundPath| f@)
}

/// What the caller of [`check_files`] has to do next.
#[derive(Clone, Debug)]
pub enum FileStep {
    /// These are the candidates.
    Done(Vec<AppItem>),
    /// Read this directory and hand its entries to [`list_dir`].
    List(String),
    /// Search the home directory for this pattern and hand what was found
    /// to [`rank_found`].
    Search(String),
}

/// The mathematical value of a [`FileStep`].
pub enum FileStepView {
    Done(Seq<AppItemView>),
    List(Seq<char>),
    Search(Seq<char>),
}

impl View for FileStep {
    type V = FileStepView;

    open spec fn view(&self) -> FileStepView {
        match *self {
            FileStep::Done(items) => FileStepView::Done(item_views(items@)),
            FileStep::List(dir) => FileStepView::List(dir@),
            FileStep::Search(pattern) => FileStepView::Search(pattern@),
        }
    }
}

/// The most candidates that a search offers.
pub const FOUND_LIMIT: usize = 50;

/// Whether a query is one for the file provider: it begins with `/` or `~`.
pub open spec fn is_file_query(query: Seq<char>) -> bool {
    starts_with(query, "/"@) || starts_with(query, "~"@)
}

/// The path that the query names as it stands, with the home directory for
/// a `~` in front.
pub open spec fn direct_path(query: Seq<char>, home: Seq<char>) -> Seq<char> {
    if starts_with(query, "~"@) {
        home + query.skip(1)
    } else {
        query
    }
}

/// The path in the home directory that what follows the first character of
/// the query names.
pub open spec fn home_path(query: Seq<char>, home: Seq<char>) -> Seq<char> {
    joined_path(home, query.skip(1))
}

/// The candidate for a path.
pub open spec fn file_item(path: Seq<char>, name: Seq<char>, is_dir: bool) -> AppItemView {
    plain_item(
        name,
        "OPEN_PATH:"@ + path,
        if is_dir {
            "\u{f024b}"@
        } else {
            "\u{f0214}"@
        },
        "file"@,
    )
}

/// What the file provider does for a query, where `direct` says what
/// `direct_path` leads to and `other` what `home_path` leads to.
///
/// A query that is only `/` lists the home directory.  Otherwise the query
/// names its direct path: the path as typed, with the home directory for a
/// `~` in front.  If that path exists, it is listed if it is a directory
/// and the query ends in `/`, and offered as the one candidate if not.  If
/// it does not exist, the home directory is searched for what follows the
/// first character of the query; where that ends in `/` and names a
/// directory in the home directory, this directory is listed instead.
pub open spec fn file_step(
    query: Seq<char>,
    home: Seq<char>,
    direct: PathKind,
    other: PathKind,
) -> FileStepView {
    if !is_file_query(query) {
        FileStepView::Done(Seq::empty())
    } else if query == "/"@ {
        FileStepView::List(home)
    } else {
        let full = direct_path(query, home);
        let pattern = query.skip(1);
        if direct != PathKind::Missing {
            if direct == PathKind::Directory && ends_with(query, "/"@) {
                FileStepView::List(full)
            } else {
                FileStepView::Done(
                    seq![
                        file_item(full, shown_path(full, home, full), direct == PathKind::Directory),
                    ],
                )
            }
        } else if pattern.len() == 0 {
            FileStepView::List(home)
        } else if ends_with(pattern, "/"@) && other == PathKind::Directory {
            FileStepView::List(home_path(query, home))
        } else {
            FileStepView::Search(pattern)
        }
    }
}

/// The entries among the first `n` whose names do not begin with a dot.
pub open spec fn visible_upto(entries: Seq<DirEntryView>, n: nat) -> Seq<DirEntryView>
    decreases n,
{
    if n == 0 {
        Seq::empty()
    } else {
        let before = visible_upto(entries, (n - 1) as nat);
        if starts_with(entries[n - 1].name, "."@) {
            before
        } else {
            before.push(entries[n - 1])
        }
    }
}

/// The candidate for an entry of a directory.  An entry outside the home
/// directory is shown by its name.
pub open spec fn entry_item(e: DirEntryView, home: Seq<char>) -> AppItemView {
    file_item(e.path, shown_path(e.path, home, e.name), e.is_dir)
}

/// The rank of an entry of a directory: directories first, then by the
/// name shown.
pub open spec fn entry_rank(e: DirEntryView, home: Seq<char>) -> RankView {
    RankView {
        score: if e.is_dir {
            1
        } else {
            0
        },
        uses: 0,
        demerit: 0,
        depth: 0,
        label: shown_path(e.path, home, e.name),
    }
}

/// The candidates for the entries of a directory: the entries whose names
/// do not begin with a dot, directories before files, each group in the
/// order of the names shown.
pub open spec fn listing(entries: Seq<DirEntryView>, home: Seq<char>) -> Seq<AppItemView> {
    let visible = visible_upto(entries, entries.len());
    picked(
        Seq::new(visible.len(), |i: int| entry_item(visible[i], home)),
        sort_order(Seq::new(visible.len(), |i: int| entry_rank(visible[i], home))),
    )
}

/// The paths that a search printed, one on each line: the lines that are
/// not empty, without white space around them.
pub open spec fn printed_paths_upto(lines: Seq<Seq<char>>, n: nat) -> Seq<Seq<char>>
    decreases n,
{
    if n == 0 {
        Seq::empty()
    } else {
        let before = printed_paths_upto(lines, (n - 1) as nat);
        if lines[n - 1].len() == 0 {
            before
        } else {
            before.push(trimmed(lines[n - 1]))
        }
    }
}

/// The paths in what a search printed.
pub open spec fn printed_paths(output: Seq<char>) -> Seq<Seq<char>> {
    printed_paths_upto(text_lines(output), text_lines(output).len())
}

/// What of a found path is compared with the pattern: the path as seen
/// from the home directory if the pattern has a `/` in it, else the name;
/// in lower case.
pub open spec fn subject(pattern: Seq<char>, home: Seq<char>, path: Seq<char>) -> Seq<char> {
    if pattern.contains('/') {
        lowercase(relative_to(path, home))
    } else {
        lowercase(file_name(path))
    }
}

/// The rank of a found path.  A path whose subject is the pattern comes
/// first, then one whose subject begins with the pattern; then paths that
/// are not hidden, then the less deep, then by the path itself.
pub open spec fn found_rank(pattern: Seq<char>, home: Seq<char>, path: Seq<char>) -> RankView {
    let s = subject(pattern, home, path);
    let p = lowercase(pattern);
    RankView {
        score: if s == p {
            if starts_with(s, p) {
                3
            } else {
                2
            }
        } else if starts_with(s, p) {
            1
        } else {
            0
        },
        uses: 0,
        demerit: if is_hidden(path) {
            1
        } else {
            0
        },
        depth: depth(path) as usize,
        label: path,
    }
}

/// The candidate for a found path.
pub open spec fn found_item(f: FoundPathView, home: Seq<char>) -> AppItemView {
    file_item(f.path, shown_path(f.path, home, f.path), f.is_dir)
}

/// The candidates for what a search found: the first `FOUND_LIMIT` in the
/// order of their ranks.
pub open spec fn ranked_found(
    pattern: Seq<char>,
    home: Seq<char>,
    found: Seq<FoundPathView>,
) -> Seq<AppItemView> {
    let all = picked(
        Seq::new(found.len(), |i: int| found_item(found[i], home)),
        sort_order(Seq::new(found.len(), |i: int| found_rank(pattern, home, found[i].path))),
    );
    all.take(
        if FOUND_LIMIT <= found.len() {
            FOUND_LIMIT as int
        } else {
            found.len() as int
        },
    )
}

/// Whether `query` is one for the file provider.
pub fn is_file_search(query: &str) -> (r: bool)
    ensures
        r == is_file_query(query@),
{
    let q = chars_of(query);
    has_prefix(&q, &chars_of("/")) || has_prefix(&q, &chars_of("~"))
}

/// The two paths of which [`check_files`] must know what they lead to:
/// first the direct path, then the path in the home directory, which is
/// asked about only where the direct path is missing.
pub fn probe_paths(query: &str, home: &str) -> (r: (String, String))
    requires
        is_file_query(query@),
    ensures
        r.0@ == direct_path(query@, home@),
        r.1@ == home_path(query@, home@),
{
    let q = chars_of(query);
    let h = chars_of(home);
    proof {
        reveal_strlit("/");
        reveal_strlit("~");
    }
    let rest = slice(&q, 1, q.len());
    assert(rest@ =~= q@.skip(1));
    let direct = if has_prefix(&q, &chars_of("~")) {
        concat(&h, &rest)
    } else {
        copy(&q)
    };
    (string_of(&direct), string_of(&join_path(&h, &rest)))
}

fn item_for(path: &Vec<char>, name: &Vec<char>, is_dir: bool) -> (r: AppItem)
    ensures
        r@ == file_item(path@, name@, is_dir),
{
    let action = concat(&chars_of("OPEN_PATH:"), path);
    plain_from(
        name,
        &action,
        if is_dir {
            "\u{f024b}"
        } else {
            "\u{f0214}"
        },
        "file",
    )
}

/// Decides what the file provider does for `query`, where `direct` and
/// `other` say what the two paths of [`probe_paths`] lead to.
pub fn check_files(query: &str, home: &str, direct: PathKind, other: PathKind) -> (step: FileStep)
    ensures
        step@ == file_step(query@, home@, direct, other),
{
    let q = chars_of(query);
    let h = chars_of(home);
    let root = chars_of("/");
    if !is_file_search(query) {
        let none: Vec<AppItem> = Vec::new();
        assert(item_views(none@) =~= Seq::<AppItemView>::empty());
        return FileStep::Done(none);
    }
    if same(&q, &root) {
        return FileStep::List(string_of(&h));
    }
    let (direct_text, other_text) = probe_paths(query, home);
    let full = chars_of(direct_text.as_str());
    proof {
        reveal_strlit("/");
        reveal_strlit("~");
    }
    let pattern = slice(&q, 1, q.len());
    assert(pattern@ =~= q@.skip(1));
    if direct != PathKind::Missing {
        if direct == PathKind::Directory && has_suffix(&q, &root) {
            FileStep::List(string_of(&full))
        } else {
            let name = shown(&full, &h, &full);
            let mut one: Vec<AppItem> = Vec::new();
            one.push(item_for(&full, &name, direct == PathKind::Directory));
            assert(item_views(one@) =~= seq![
                file_item(full@, shown_path(full@, h@, full@), direct == PathKind::Directory),
            ]);
            FileStep::Done(one)
        }
    } else if pattern.len() == 0 {
        FileStep::List(string_of(&h))
    } else if has_suffix(&pattern, &root) && other == PathKind::Directory {
        FileStep::List(other_text)
    } else {
        FileStep::Search(string_of(&pattern))
    }
}

/// The candidates for the entries of a directory.
pub fn list_dir(entries: &Vec<DirEntry>, home: &str) -> (r: Vec<AppItem>)
    ensures
        item_views(r@) == listing(entry_views(entries@), home@),
{
    let h = chars_of(home);
    let dot = chars_of(".");
    let ghost ev = entry_views(entries@);
    let ghost mut visible: Seq<DirEntryView> = Seq::empty();
    let mut items: Vec<AppItem> = Vec::new();
    let mut ranks: Vec<Rank> = Vec::new();
    let mut i: usize = 0;
    while i < entries.len()
        invariant
            i <= entries.len(),
            ev == entry_views(entries@),
            h@ == home@,
            dot@ == "."@,
            visible == visible_upto(ev, i as nat),
            items@.len() == visible.len(),
            ranks@.len() == visible.len(),
            forall|k: int|
                0 <= k < visible.len() ==> (#[trigger] items@[k])@ == entry_item(visible[k], home@),
            forall|k: int|
                0 <= k < visible.len() ==> (#[trigger] ranks@[k])@ == entry_rank(visible[k], home@),
        decreases entries.len() - i,
    {
        let e = &entries[i];
        assert(ev[i as int] == e@);
        let name = chars_of(e.name.as_str());
        if !has_prefix(&name, &dot) {
            let path = chars_of(e.path.as_str());
            let label = shown(&path, &h, &name);
            items.push(item_for(&path, &label, e.is_dir));
            ranks.push(
                Rank {
                    score: if e.is_dir {
                        1
                    } else {
                        0
                    },
                    uses: 0,
                    demerit: 0,
                    depth: 0,
                    label,
                },
            );
            proof {
                visible = visible.push(e@);
            }
        }
        i += 1;
    }
    assert(item_views(items@) =~= Seq::new(visible.len(), |k: int| entry_item(visible[k], home@)));
    assert(rank_views(ranks@) =~= Seq::new(visible.len(), |k: int| entry_rank(visible[k], home@)));
    ranked(&items, &ranks)
}

/// The paths in what a search printed.
pub fn found_paths(output: &str) -> (r: Vec<String>)
    ensures
        crate::windows::strs(r@) == printed_paths(output@),
{
    let all = lines(&chars_of(output));
    let ghost lv = views(all@);
    let mut out: Vec<String> = Vec::new();
    let mut i: usize = 0;
    assert(crate::windows::strs(out@) =~= printed_paths_upto(lv, 0));
    while i < all.len()
        invariant
            i <= all.len(),
            lv == views(all@),
            crate::windows::strs(out@) == printed_paths_upto(lv, i as nat),
        decreases all.len() - i,
    {
        assert(lv[i as int] == all@[i as int]@);
        let ghost before = out@;
        if all[i].len() > 0 {
            let path = string_of(&trim(&all[i]));
            out.push(path);
            assert(crate::windows::strs(out@) =~= crate::windows::strs(before).push(
                trimmed(lv[i as int]),
            ));
        }
        i += 1;
    }
    out
}

fn rank_of_found(pattern: &Vec<char>, home: &Vec<char>, path: &Vec<char>) -> (r: Rank)
    ensures
        r@ == found_rank(pattern@, home@, path@),
{
    let p = lower(pattern);
    let s = if has_char(pattern, '/') {
        lower(&relative(path, home))
    } else {
        lower(&name_of(path))
    };
    let exact = same(&s, &p);
    let starts = has_prefix(&s, &p);
    Rank {
        score: if exact {
            if starts {
                3
            } else {
                2
            }
        } else if starts {
            1
        } else {
            0
        },
        uses: 0,
        demerit: if hidden(path) {
            1
        } else {
            0
        },
        depth: depth_of(path),
        label: copy(path),
    }
}

/// The candidates for what a search for `pattern` found.
pub fn rank_found(pattern: &str, home: &str, found: &Vec<FoundPath>) -> (r: Vec<AppItem>)
    ensures
        item_views(r@) == ranked_found(pattern@, home@, found_views(found@)),
{
    let p = chars_of(pattern);
    let h = chars_of(home);
    let ghost fv = found_views(found@);
    let mut items: Vec<AppItem> = Vec::new();
    let mut ranks: Vec<Rank> = Vec::new();
    let mut i: usize = 0;
    while i < found.len()
        invariant
            i <= found.len(),
            fv == found_views(found@),
            p@ == pattern@,
            h@ == home@,
            items@.len() == i,
            ranks@.len() == i,
            forall|k: int| 0 <= k < i ==> (#[trigger] items@[k])@ == found_item(fv[k], home@),
            forall|k: int|
                0 <= k < i ==> (#[trigger] ranks@[k])@ == found_rank(pattern@, home@, fv[k].path),
        decreases found.len() - i,
    {
        assert(fv[i as int] == found@[i as int]@);
        let path = chars_of(found[i].path.as_str());
        let name = shown(&path, &h, &path);
        items.push(item_for(&path, &name, found[i].is_dir));
        ranks.push(rank_of_found(&p, &h, &path));
        i += 1;
    }
    assert(item_views(items@) =~= Seq::new(fv.len(), |k: int| found_item(fv[k], home@)));
    assert(rank_views(ranks@) =~= Seq::new(
        fv.len(),
        |k: int| found_rank(pattern@, home@, fv[k].path),
    ));
    let all = ranked(&items, &ranks);
    first(&all, FOUND_LIMIT)
}

/// A query that names an existing path and does not end in `/` has that
/// path for its one candidate, and opening the path for its action.
pub proof fn lemma_existing_path_is_offered(
    query: Seq<char>,
    home: Seq<char>,
    direct: PathKind,
    other: PathKind,
)
    requires
        starts_with(query, "/"@),
        !ends_with(query, "/"@),
        direct != PathKind::Missing,
    ensures
        file_step(query, home, direct, other) is Done,
        file_step(query, home, direct, other)->Done_0.len() == 1,
        file_step(query, home, direct, other)->Done_0[0].action == "OPEN_PATH:"@ + query,
{
    reveal_strlit("/");
    reveal_strlit("~");
    assert(query.subrange(0, 1)[0] == '/');
    if starts_with(query, "~"@) {
        assert(query.subrange(0, 1)[0] == '~');
    }
    if query == "/"@ {
        assert(query.subrange(0, 1) =~= query);
    }
}


/// A query that begins with `/`, does not end in one and names no existing
/// path is searched for in the home directory, whatever the home directory
/// holds under that name.
pub proof fn lemma_missing_path_is_searched(query: Seq<char>, home: Seq<char>, other: PathKind)
    requires
        starts_with(query, "/"@),
        !ends_with(query, "/"@),
    ensures
        file_step(query, home, PathKind::Missing, other) == FileStepView::Search(query.skip(1)),
{
    reveal_strlit("/");
    assert(query.subrange(0, 1)[0] == '/');
    if query.len() == 1 {
        assert(query.subrange(0, 1) =~= query);
        assert(query.subrange(query.len() - 1, query.len() as int) =~= "/"@);
    }
    if query == "/"@ {
        assert(query.subrange(0, 1) =~= query);
    }
    let pattern = query.skip(1);
    if ends_with(pattern, "/"@) {
        assert(pattern.subrange(pattern.len() - 1, pattern.len() as int) =~= query.subrange(
            query.len() - 1,
            query.len() as int,
        ));
    }
}


/// Every candidate of the file provider has the desktop identifier `file`:
/// those of a listing, those of a search, and the one for an existing
/// path.
pub proof fn lemma_file_candidates_are_files(
    query: Seq<char>,
    pattern: Seq<char>,
    home: Seq<char>,
    direct: PathKind,
    other: PathKind,
    entries: Seq<DirEntryView>,
    found: Seq<FoundPathView>,
    id: Seq<char>,
)
    requires
        id != "file"@,
    ensures
        none_from(listing(entries, home), id),
        none_from(ranked_found(pattern, home, found), id),
        file_step(query, home, direct, other) is Done ==> none_from(
            file_step(query, home, direct, other)->Done_0,
            id,
        ),
{
    let visible = visible_upto(entries, entries.len());
    let entry_ranks = Seq::new(visible.len(), |i: int| entry_rank(visible[i], home));
    lemma_sort_order(entry_ranks);
    let listed = listing(entries, home);
    assert forall|i: int| 0 <= i < listed.len() implies (#[trigger] listed[i]).desktop_id != id by {
        let k = sort_order(entry_ranks)[i];
        assert(0 <= k < visible.len());
        assert(listed[i] == entry_item(visible[k], home));
    }
    let found_ranks = Seq::new(found.len(), |i: int| found_rank(pattern, home, found[i].path));
    lemma_sort_order(found_ranks);
    let ranked = ranked_found(pattern, home, found);
    assert forall|i: int| 0 <= i < ranked.len() implies (#[trigger] ranked[i]).desktop_id != id by {
        let k = sort_order(found_ranks)[i];
        assert(0 <= k < found.len());
        assert(ranked[i] == found_item(found[k], home));
    }
}

} // verus!
