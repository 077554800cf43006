//! The clipboard provider: candidates from the listing of the clipboard
//! history.
//!
//! The listing has one entry on each line: an identifier, a tab, and the
//! content.  The newest entry comes first.

use vstd::prelude::*;
use crate::candidate::{has_name, item_views, name_listed, plain_from, plain_item, AppItem,
    AppItemView};
use crate::paths::{extension, extension_of, file_name, name_of};
use crate::text::{append, char_is_control, chars_of, concat, contains, contains_sub, copy,
    find, find_from, has_prefix, has_suffix, is_control, join, joined, lines, lower, lowercase,
    same, slice, split_whitespace, starts_with, ends_with, string_of, text_lines, to_uppercase,
    trim, trimmed, uppercase, views, words};

verus! {

/// Whether a character of a clipboard text is shown: control characters
/// are not, but for the line feed.
pub open spec fn is_shown(c: char) -> bool {
    !is_control(c) || c == '\n'
}

/// The shown characters among the first `n` of `s`.
pub open spec fn shown_upto(s: Seq<char>, n: nat) -> Seq<char>
    decreases n,
{
    if n == 0 {
        Seq::empty()
    } else {
        let before = shown_upto(s, (n - 1) as nat);
        if is_shown(s[n - 1]) {
            before.push(s[n - 1])
        } else {
            before
        }
    }
}

/// The text `s` with only its shown characters.
pub open spec fn shown_text(s: Seq<char>) -> Seq<char> {
    shown_upto(s, s.len())
}

/// Whether the content stands for binary data: it is framed by
/// `[[ binary data ` and ` ]]`.
pub open spec fn is_blob(content: Seq<char>) -> bool {
    starts_with(content, "[[ binary data "@) && ends_with(content, " ]]"@)
}

/// What is shown for binary data.  Where the frame holds three words or
/// more, these are the size and then the type and the measures: the type
/// in upper case, the measures, and the size in brackets.  Else the content
/// is shown as it is.
pub open spec fn blob_summary(content: Seq<char>) -> Seq<char> {
    let inner = if content.len() >= "[[ binary data "@.len() + " ]]"@.len() {
        content.subrange("[[ binary data "@.len() as int, content.len() - " ]]"@.len())
    } else {
        Seq::empty()
    };
    let t = words(inner);
    if t.len() >= 3 {
        uppercase(t[t.len() - 2]) + " "@ + t[t.len() - 1] + " ("@ + joined(
            t.take(t.len() - 2),
            " "@,
        ) + ")"@
    } else {
        content
    }
}

/// Whether an extension, in lower case, is that of a picture.
pub open spec fn is_picture(ext: Seq<char>) -> bool {
    ext == "png"@ || ext == "jpg"@ || ext == "jpeg"@ || ext == "gif"@ || ext == "bmp"@ || ext
        == "webp"@ || ext == "svg"@
}

/// Whether the content is the path of a picture.
pub open spec fn is_picture_path(content: Seq<char>) -> bool {
    starts_with(content, "/"@) && extension(file_name(content)) is Some && is_picture(
        lowercase(extension(file_name(content))->0),
    )
}

/// What is shown for a content and with which glyph, before white space
/// around it is removed: the summary of binary data, the name of a picture,
/// and of anything else the text without control characters.
pub open spec fn rendering(content: Seq<char>) -> (Seq<char>, Seq<char>) {
    if is_blob(content) {
        (blob_summary(content), "\u{f0976}"@)
    } else if is_picture_path(content) {
        (
            "[FILE] "@ + (if file_name(content).len() > 0 {
                file_name(content)
            } else {
                content
            }),
            "\u{f021f}"@,
        )
    } else {
        (shown_text(content), "\u{f014d}"@)
    }
}

/// The candidate for one line of the listing, if the line gives one: the
/// line must have a tab, and its content must not be shown as nothing.
pub open spec fn line_item(line: Seq<char>) -> Option<AppItemView> {
    match find_from(line, "\t"@, 0) {
        Some(tab) => {
            let id = trimmed(line.take(tab));
            let (text, icon) = rendering(line.skip(tab + 1));
            if trimmed(text).len() > 0 {
                Some(plain_item(trimmed(text), "CLIPBOARD_SET:"@ + id, icon, "clipboard"@))
            } else {
                None
            }
        },
        None => None,
    }
}

/// The candidates of the first `n` lines: each line's candidate, unless
/// one of the same name is listed already.
pub open spec fn entries_upto(lines: Seq<Seq<char>>, n: nat) -> Seq<AppItemView>
    decreases n,
{
    if n == 0 {
        Seq::empty()
    } else {
        let before = entries_upto(lines, (n - 1) as nat);
        match line_item(lines[n - 1]) {
            Some(item) => {
                if has_name(before, item.name) {
                    before
                } else {
                    before.push(item)
                }
            },
            None => before,
        }
    }
}

/// The candidates of a listing of the clipboard history, in its order.
pub open spec fn clipboard_entries(listing: Seq<char>) -> Seq<AppItemView> {
    entries_upto(text_lines(listing), text_lines(listing).len())
}

/// The candidates among the first `n` whose names contain `text`,
/// compared in lower case.
pub open spec fn matching_upto(items: Seq<AppItemView>, text: Seq<char>, n: nat) -> Seq<
    AppItemView,
>
    decreases n,
{
    if n == 0 {
        Seq::empty()
    } else {
        let before = matching_upto(items, text, (n - 1) as nat);
        if contains_sub(lowercase(items[n - 1].name), lowercase(text)) {
            before.push(items[n - 1])
        } else {
            before
        }
    }
}

/// The candidates whose names contain `text`, compared in lower case.
pub open spec fn matching(items: Seq<AppItemView>, text: Seq<char>) -> Seq<AppItemView> {
    matching_upto(items, text, items.len())
}

fn shown_chars(s: &Vec<char>) -> (r: Vec<char>)
    ensures
        r@ == shown_text(s@),
{
    let mut out: Vec<char> = Vec::new();
    let mut i: usize = 0;
    while i < s.len()
        invariant
            i <= s.len(),
            out@ == shown_upto(s@, i as nat),
        decreases s.len() - i,
    {
        let c = s[i];
        if !char_is_control(c) || c == '\n' {
            out.push(c);
        }
        i += 1;
    }
    out
}

fn summary_of_blob(content: &Vec<char>) -> (r: Vec<char>)
    ensures
        r@ == blob_summary(content@),
{
    let head = chars_of("[[ binary data ");
    let tail = chars_of(" ]]");
    let inner = if head.len() <= content.len() && tail.len() <= content.len() - head.len() {
        slice(content, head.len(), content.len() - tail.len())
    } else {
        let e: Vec<char> = Vec::new();
        assert(e@ =~= Seq::<char>::empty());
        e
    };
    let t = split_whitespace(&inner);
    if t.len() >= 3 {
        let n: usize = t.len();
        assert(views(t@)[n - 2] == t@[n - 2]@);
        assert(views(t@)[n - 1] == t@[n - 1]@);
        let kind = to_uppercase(string_of(&t[n - 2]).as_str());
        let mut out = chars_of(kind.as_str());
        append(&mut out, &chars_of(" "));
        append(&mut out, &t[n - 1]);
        append(&mut out, &chars_of(" ("));
        let mut size: Vec<Vec<char>> = Vec::new();
        let mut k: usize = 0;
        while k < n - 2
            invariant
                n == t.len(),
                n >= 3,
                k <= n - 2,
                views(size@) == views(t@).take(k as int),
            decreases n - k,
        {
            let ghost before = size@;
            size.push(copy(&t[k]));
            assert(views(size@) =~= views(before).push(t@[k as int]@));
            k += 1;
            assert(views(size@) =~= views(t@).take(k as int));
        }
        append(&mut out, &join(&size, &chars_of(" ")));
        append(&mut out, &chars_of(")"));
        out
    } else {
        copy(content)
    }
}

fn picture_extension(ext: &Vec<char>) -> (r: bool)
    ensures
        r == is_picture(ext@),
{
    same(ext, &chars_of("png")) || same(ext, &chars_of("jpg")) || same(ext, &chars_of("jpeg"))
        || same(ext, &chars_of("gif")) || same(ext, &chars_of("bmp")) || same(
        ext,
        &chars_of("webp"),
    ) || same(ext, &chars_of("svg"))
}

fn picture_path(content: &Vec<char>) -> (r: bool)
    ensures
        r == is_picture_path(content@),
{
    if !has_prefix(content, &chars_of("/")) {
        return false;
    }
    match extension_of(&name_of(content)) {
        Some(ext) => picture_extension(&lower(&ext)),
        None => false,
    }
}

/// What is shown for a content and with which glyph.
fn render(content: &Vec<char>) -> (r: (Vec<char>, &'static str))
    ensures
        rendering(content@) == (r.0@, r.1@),
{
    if has_prefix(content, &chars_of("[[ binary data ")) && has_suffix(content, &chars_of(" ]]")) {
        (summary_of_blob(content), "\u{f0976}")
    } else if picture_path(content) {
        let name = name_of(content);
        let shown = if name.len() > 0 {
            concat(&chars_of("[FILE] "), &name)
        } else {
            concat(&chars_of("[FILE] "), content)
        };
        (shown, "\u{f021f}")
    } else {
        (shown_chars(content), "\u{f014d}")
    }
}

fn item_of_line(line: &Vec<char>) -> (r: Option<AppItem>)
    ensures
        match r {
            Some(item) => line_item(line@) == Some(item@),
            None => line_item(line@) is None,
        },
{
    let tab_mark = chars_of("\t");
    proof {
        reveal_strlit("\t");
    }
    match find(line, &tab_mark, 0) {
        Some(tab) => {
            assert(tab_mark@.len() == 1);
            assert(tab + 1 <= line@.len());
            assert(line@.len() == line.len());
            let id = trim(&slice(line, 0, tab));
            assert(line@.subrange(0, tab as int) =~= line@.take(tab as int));
            let content = slice(line, tab + 1, line.len());
            assert(content@ =~= line@.skip(tab + 1));
            let (text, icon) = render(&content);
            let name = trim(&text);
            if name.len() > 0 {
                let action = concat(&chars_of("CLIPBOARD_SET:"), &id);
                Some(plain_from(&name, &action, icon, "clipboard"))
            } else {
                None
            }
        },
        None => None,
    }
}

/// The candidates of a listing of the clipboard history.
pub fn get_clipboard_history(listing: &str) -> (r: Vec<AppItem>)
    ensures
        item_views(r@) == clipboard_entries(listing@),
{
    let all = lines(&chars_of(listing));
    let ghost lv = views(all@);
    let mut out: Vec<AppItem> = Vec::new();
    let mut i: usize = 0;
    assert(item_views(out@) =~= entries_upto(lv, 0));
    while i < all.len()
        invariant
            i <= all.len(),
            lv == views(all@),
            item_views(out@) == entries_upto(lv, i as nat),
        decreases all.len() - i,
    {
        assert(lv[i as int] == all@[i as int]@);
        let ghost before = out@;
        match item_of_line(&all[i]) {
            Some(item) => {
                let name = chars_of(item.name.as_str());
                if !name_listed(&out, &name) {
                    out.push(item);
                    assert(item_views(out@) =~= item_views(before).push(item@));
                }
            },
            None => {},
        }
        i += 1;
    }
    out
}

/// The candidates of `items` whose names contain `text`, compared in lower
/// case.
pub fn filter_by_name(items: &Vec<AppItem>, text: &str) -> (r: Vec<AppItem>)
    ensures
        item_views(r@) == matching(item_views(items@), text@),
        text@.len() == 0 ==> item_views(r@) == item_views(items@),
{
    let needle = lower(&chars_of(text));
    proof {
        if text@.len() == 0 {
            lemma_empty_needle_matches_all(item_views(items@), text@, items@.len());
            assert(item_views(items@).take(items@.len() as int) =~= item_views(items@));
        }
    }
    let ghost iv = item_views(items@);
    let mut out: Vec<AppItem> = Vec::new();
    let mut i: usize = 0;
    assert(item_views(out@) =~= matching_upto(iv, text@, 0));
    while i < items.len()
        invariant
            i <= items.len(),
            iv == item_views(items@),
            needle@ == lowercase(text@),
            item_views(out@) == matching_upto(iv, text@, i as nat),
        decreases items.len() - i,
    {
        assert(iv[i as int] == items@[i as int]@);
        let ghost before = out@;
        let name = lower(&chars_of(items[i].name.as_str()));
        if contains(&name, &needle) {
            out.push(items[i].duplicate());
            assert(item_views(out@) =~= item_views(before).push(items@[i as int]@));
        }
        i += 1;
    }
    out
}

/// No two candidates of a listing have the same name.
pub proof fn lemma_entries_distinct(lines: Seq<Seq<char>>, n: nat)
    ensures
        ({
            let all = entries_upto(lines, n);
            forall|i: int, j: int| 0 <= i < j < all.len() ==> all[i].name != all[j].name
        }),
    decreases n,
{
    if n > 0 {
        lemma_entries_distinct(lines, (n - 1) as nat);
        let before = entries_upto(lines, (n - 1) as nat);
        let all = entries_upto(lines, n);
        if all.len() > before.len() {
            assert forall|i: int, j: int| 0 <= i < j < all.len() implies all[i].name
                != all[j].name by {
                if j == before.len() {
                    assert(before[i] == all[i]);
                } else {
                    assert(before[i] == all[i] && before[j] == all[j]);
                }
            }
        }
    }
}


/// A text whose lower-case form is empty matches every candidate.
proof fn lemma_empty_needle_matches_all(items: Seq<AppItemView>, text: Seq<char>, n: nat)
    requires
        n <= items.len(),
        lowercase(text).len() == 0,
    ensures
        matching_upto(items, text, n) == items.take(n as int),
    decreases n,
{
    if n > 0 {
        lemma_empty_needle_matches_all(items, text, (n - 1) as nat);
        let name = lowercase(items[n - 1].name);
        assert(name.subrange(0, 0) =~= lowercase(text));
        assert(crate::text::occurs_at(name, lowercase(text), 0));
        assert(items.take(n as int) =~= items.take(n - 1).push(items[n - 1]));
    } else {
        assert(items.take(0) =~= Seq::<AppItemView>::empty());
    }
}

} // verus!
