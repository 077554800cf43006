//! Paths as text: segments, names, depth.
//!
//! A path is read as its pieces between `/`.  The empty pieces and the pieces
//! `.` are no segments: `/a//b/./c/` has the segments `a`, `b`, `c`.

use vstd::prelude::*;
use crate::text::{append, chars_of, concat, copy, has_prefix, join, joined, same, slice, split,
    split_on, starts_with, views};

verus! {

/// Whether a piece between separators is a segment of the path.
pub open spec fn is_segment(piece: Seq<char>) -> bool {
    piece.len() > 0 && piece != "."@
}

/// The segments among the first `n` pieces.
pub open spec fn kept_segments(pieces: Seq<Seq<char>>, n: nat) -> Seq<Seq<char>>
    decreases n,
{
    if n == 0 {
        Seq::empty()
    } else {
        let before = kept_segments(pieces, (n - 1) as nat);
        if is_segment(pieces[n - 1]) {
            before.push(pieces[n - 1])
        } else {
            before
        }
    }
}

/// The segments of a path.
pub open spec fn segments(path: Seq<char>) -> Seq<Seq<char>> {
    kept_segments(split_on(path, '/'), split_on(path, '/').len())
}

/// Whether a path starts at the root.
pub open spec fn is_absolute(path: Seq<char>) -> bool {
    starts_with(path, "/"@)
}

/// The name of what a path leads to: its last segment.  A path without
/// segments, or one that ends in `..`, has the empty name.
pub open spec fn file_name(path: Seq<char>) -> Seq<char> {
    let s = segments(path);
    if s.len() > 0 && s.last() != ".."@ {
        s.last()
    } else {
        Seq::empty()
    }
}

/// Whether some segment begins with a dot.
pub open spec fn any_dotted(segs: Seq<Seq<char>>) -> bool {
    exists|i: int| 0 <= i < segs.len() && (#[trigger] segs[i]).len() > 0 && segs[i][0] == '.'
}

/// Whether a path leads through something hidden: a segment that begins
/// with a dot.
pub open spec fn is_hidden(path: Seq<char>) -> bool {
    any_dotted(segments(path))
}

/// How deep a path leads: the number of its segments, and one more for the
/// root of an absolute path or for the `.` at the start of a relative one.
pub open spec fn depth(path: Seq<char>) -> nat {
    let pieces = split_on(path, '/');
    if is_absolute(path) || pieces[0] == "."@ {
        segments(path).len() + 1
    } else {
        segments(path).len()
    }
}

/// `path` as seen from `base`: the segments of `path` that follow those of
/// `base`, with `/` between them.  It is empty where `path` does not lead
/// through `base`.
pub open spec fn relative_to(path: Seq<char>, base: Seq<char>) -> Seq<char> {
    let p = segments(path);
    let b = segments(base);
    if is_absolute(path) == is_absolute(base) && b.len() <= p.len() && p.take(b.len() as int)
        == b {
        joined(p.skip(b.len() as int), "/"@)
    } else {
        Seq::empty()
    }
}

/// The index of the last dot of `name`, or -1.
pub open spec fn last_dot(name: Seq<char>) -> int
    decreases name.len(),
{
    if name.len() == 0 {
        -1
    } else if name.last() == '.' {
        name.len() - 1
    } else {
        last_dot(name.drop_last())
    }
}

/// The extension of a file name: what follows its last dot.  A name
/// without a dot, or with its only dot at the start, has none, and neither
/// has `..`.
pub open spec fn extension(name: Seq<char>) -> Option<Seq<char>> {
    if name == ".."@ || last_dot(name) <= 0 {
        None
    } else {
        Some(name.skip(last_dot(name) + 1))
    }
}

/// `rel` appended to the path `base`.  An absolute `rel` replaces `base`;
/// else a `/` is put between the two unless `base` is empty or ends in one.
pub open spec fn joined_path(base: Seq<char>, rel: Seq<char>) -> Seq<char> {
    if is_absolute(rel) {
        rel
    } else if base.len() > 0 && base.last() != '/' {
        base + "/"@ + rel
    } else {
        base + rel
    }
}

/// How a path is shown: a path that begins with the home directory is
/// shown from there on, with a `/` in front; any other path is shown as
/// `otherwise`.
pub open spec fn shown_path(path: Seq<char>, home: Seq<char>, otherwise: Seq<char>) -> Seq<char> {
    if starts_with(path, home) {
        let sub = path.skip(home.len() as int);
        if starts_with(sub, "/"@) {
            sub
        } else {
            "/"@ + sub
        }
    } else {
        otherwise
    }
}

/// There are no more segments than pieces, one fewer if the first piece is
/// no segment, and each of them is a segment.
pub proof fn lemma_kept_segments_len(pieces: Seq<Seq<char>>, n: nat)
    requires
        n <= pieces.len(),
    ensures
        kept_segments(pieces, n).len() <= n,
        n > 0 && !is_segment(pieces[0]) ==> kept_segments(pieces, n).len() <= n - 1,
        forall|i: int|
            0 <= i < kept_segments(pieces, n).len() ==> is_segment(
                #[trigger] kept_segments(pieces, n)[i],
            ),
    decreases n,
{
    if n > 0 {
        lemma_kept_segments_len(pieces, (n - 1) as nat);
    }
}

/// The segments of `path`.
pub fn path_segments(path: &Vec<char>) -> (r: Vec<Vec<char>>)
    ensures
        views(r@) == segments(path@),
{
    let pieces = split(path, '/');
    let dot = chars_of(".");
    let mut out: Vec<Vec<char>> = Vec::new();
    let mut i: usize = 0;
    assert(views(out@) =~= kept_segments(views(pieces@), 0));
    while i < pieces.len()
        invariant
            i <= pieces.len(),
            dot@ == "."@,
            views(out@) == kept_segments(views(pieces@), i as nat),
        decreases pieces.len() - i,
    {
        let ghost before = out@;
        assert(views(pieces@)[i as int] == pieces@[i as int]@);
        if pieces[i].len() > 0 && !same(&pieces[i], &dot) {
            out.push(copy(&pieces[i]));
            assert(views(out@) =~= views(before).push(pieces@[i as int]@));
        }
        i += 1;
    }
    out
}

/// The name of what `path` leads to.
pub fn name_of(path: &Vec<char>) -> (r: Vec<char>)
    ensures
        r@ == file_name(path@),
{
    let segs = path_segments(path);
    if segs.len() > 0 {
        assert(views(segs@).last() == segs@[segs@.len() - 1]@);
        if !same(&segs[segs.len() - 1], &chars_of("..")) {
            return copy(&segs[segs.len() - 1]);
        }
    }
    let e: Vec<char> = Vec::new();
    assert(e@ =~= Seq::<char>::empty());
    e
}

/// Whether `path` leads through something hidden.
pub fn hidden(path: &Vec<char>) -> (r: bool)
    ensures
        r == is_hidden(path@),
{
    let segs = path_segments(path);
    let mut i: usize = 0;
    while i < segs.len()
        invariant
            i <= segs.len(),
            views(segs@) == segments(path@),
            forall|j: int|
                0 <= j < i ==> !((#[trigger] views(segs@)[j]).len() > 0 && views(segs@)[j][0]
                    == '.'),
        decreases segs.len() - i,
    {
        assert(views(segs@)[i as int] == segs@[i as int]@);
        if segs[i].len() > 0 && segs[i][0] == '.' {
            assert(views(segs@)[i as int][0] == '.');
            assert(any_dotted(views(segs@)));
            return true;
        }
        i += 1;
    }
    false
}

/// How deep `path` leads.
pub fn depth_of(path: &Vec<char>) -> (r: usize)
    ensures
        r == depth(path@),
{
    let pieces = split(path, '/');
    let segs = path_segments(path);
    proof {
        lemma_kept_segments_len(views(pieces@), pieces@.len());
        assert(views(pieces@)[0] == pieces@[0]@);
        reveal_strlit("/");
        reveal_strlit(".");
        if is_absolute(path@) {
            assert(path@.subrange(0, 1)[0] == '/');
            lemma_first_piece_of_absolute(path@);
        }
    }
    if has_prefix(path, &chars_of("/")) || same(&pieces[0], &chars_of(".")) {
        assert(!is_segment(views(pieces@)[0]));
        assert(segs@.len() == views(segs@).len());
        assert(views(segs@).len() <= pieces@.len() - 1);
        segs.len() + 1
    } else {
        segs.len()
    }
}

/// The first piece of an absolute path is empty.
proof fn lemma_first_piece_of_absolute(path: Seq<char>)
    requires
        path.len() > 0,
        path[0] == '/',
    ensures
        split_on(path, '/').len() >= 2,
        split_on(path, '/')[0].len() == 0,
    decreases path.len(),
{
    let sep = crate::text::Separator::Char('/');
    let before = crate::text::split_when(path.drop_last(), sep);
    if path.len() > 1 {
        lemma_first_piece_of_absolute(path.drop_last());
    } else {
        assert(before =~= seq![Seq::<char>::empty()]);
        assert(sep.separates(path.last()));
    }
    assert(crate::text::split_when(path, sep) == if sep.separates(path.last()) {
        before.push(Seq::<char>::empty())
    } else {
        before.drop_last().push(before.last().push(path.last()))
    });
}

/// `path` as seen from `base`.
pub fn relative(path: &Vec<char>, base: &Vec<char>) -> (r: Vec<char>)
    ensures
        r@ == relative_to(path@, base@),
{
    let p = path_segments(path);
    let b = path_segments(base);
    let root = chars_of("/");
    let e: Vec<char> = Vec::new();
    assert(e@ =~= Seq::<char>::empty());
    if has_prefix(path, &root) != has_prefix(base, &root) || b.len() > p.len() {
        return e;
    }
    let mut i: usize = 0;
    while i < b.len()
        invariant
            i <= b.len() <= p.len(),
            views(p@) == segments(path@),
            views(b@) == segments(base@),
            is_absolute(path@) == is_absolute(base@),
            e@ == Seq::<char>::empty(),
            forall|j: int| 0 <= j < i ==> views(p@)[j] == views(b@)[j],
        decreases b.len() - i,
    {
        assert(views(p@)[i as int] == p@[i as int]@);
        assert(views(b@)[i as int] == b@[i as int]@);
        if !same(&p[i], &b[i]) {
            assert(views(p@).take(b@.len() as int)[i as int] != views(b@)[i as int]);
            assert(views(p@).take(b@.len() as int) != views(b@));
            return e;
        }
        i += 1;
    }
    assert(views(p@).take(b@.len() as int) =~= views(b@));
    let mut rest: Vec<Vec<char>> = Vec::new();
    let mut k: usize = b.len();
    while k < p.len()
        invariant
            b.len() <= k <= p.len(),
            views(rest@) == views(p@).subrange(b@.len() as int, k as int),
        decreases p.len() - k,
    {
        let ghost before = rest@;
        rest.push(copy(&p[k]));
        assert(views(rest@) =~= views(before).push(p@[k as int]@));
        k += 1;
        assert(views(rest@) =~= views(p@).subrange(b@.len() as int, k as int));
    }
    assert(views(p@).subrange(b@.len() as int, p@.len() as int) =~= views(p@).skip(
        b@.len() as int,
    ));
    join(&rest, &root)
}

/// The extension of the file name `name`.
pub fn extension_of(name: &Vec<char>) -> (r: Option<Vec<char>>)
    ensures
        match r {
            Some(e) => extension(name@) == Some(e@),
            None => extension(name@) is None,
        },
{
    if same(name, &chars_of("..")) {
        return None;
    }
    let mut i: usize = name.len();
    assert(name@.take(i as int) =~= name@);
    while i > 0 && name[i - 1] != '.'
        invariant
            i <= name.len(),
            last_dot(name@) == last_dot(name@.take(i as int)),
        decreases i,
    {
        assert(name@.take(i as int).drop_last() =~= name@.take(i - 1));
        i -= 1;
    }
    if i <= 1 {
        assert(last_dot(name@.take(i as int)) <= 0) by {
            if i == 1 {
                assert(name@.take(1).last() == '.');
            }
        }
        None
    } else {
        assert(name@.take(i as int).last() == '.');
        let e = slice(name, i, name.len());
        assert(e@ =~= name@.skip(last_dot(name@) + 1));
        Some(e)
    }
}

/// `rel` appended to the path `base`.
pub fn join_path(base: &Vec<char>, rel: &Vec<char>) -> (r: Vec<char>)
    ensures
        r@ == joined_path(base@, rel@),
{
    if has_prefix(rel, &chars_of("/")) {
        copy(rel)
    } else if base.len() > 0 && base[base.len() - 1] != '/' {
        let mut out = copy(base);
        append(&mut out, &chars_of("/"));
        append(&mut out, rel);
        out
    } else {
        concat(base, rel)
    }
}

/// How `path` is shown.
pub fn shown(path: &Vec<char>, home: &Vec<char>, otherwise: &Vec<char>) -> (r: Vec<char>)
    ensures
        r@ == shown_path(path@, home@, otherwise@),
{
    if has_prefix(path, home) {
        let sub = slice(path, home.len(), path.len());
        assert(sub@ =~= path@.skip(home@.len() as int));
        let root = chars_of("/");
        if has_prefix(&sub, &root) {
            sub
        } else {
            concat(&root, &sub)
        }
    } else {
        copy(otherwise)
    }
}

} // verus!
