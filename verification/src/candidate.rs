//! Candidates: the selectable results that the providers produce.

use vstd::prelude::*;
use crate::ranking::{ints, order_of, picked, rank_views, sort_order, Rank};
use crate::text::{chars_of, copy_str, same, str_eq, string_of};

verus! {

/// Which provider produced a candidate.
#[derive(Clone, Copy, PartialEq, Eq, Structural, Debug)]
pub enum SourceKind {
    App,
    File,
    Web,
    Calc,
    Clipboard,
    System,
    Internal,
    Color,
}

/// Where the picture of a candidate comes from when pictures are shown.
#[derive(Clone, Debug)]
pub enum IconSource {
    /// No picture: the glyph in `icon` is shown.
    Glyph,
    /// The picture that the application registry has for the entry.
    Registry,
    /// An image file, by its path.
    File(String),
    /// A picture of the icon theme, by its name.
    Themed(String),
}

/// The mathematical value of an [`IconSource`].
pub enum IconSourceView {
    Glyph,
    Registry,
    File(Seq<char>),
    Themed(Seq<char>),
}

impl View for IconSource {
    type V = IconSourceView;

    open spec fn view(&self) -> IconSourceView {
        match *self {
            IconSource::Glyph => IconSourceView::Glyph,
            IconSource::Registry => IconSourceView::Registry,
            IconSource::File(p) => IconSourceView::File(p@),
            IconSource::Themed(n) => IconSourceView::Themed(n@),
        }
    }
}

impl IconSource {
    /// A copy of the icon source.
    pub fn duplicate(&self) -> (r: IconSource)
        ensures
            r@ == self@,
    {
        match self {
            IconSource::Glyph => IconSource::Glyph,
            IconSource::Registry => IconSource::Registry,
            IconSource::File(p) => IconSource::File(copy_str(p.as_str())),
            IconSource::Themed(n) => IconSource::Themed(copy_str(n.as_str())),
        }
    }
}

/// One selectable result.  `action` is what that committing the
/// candidate performs, `desktop_id` the identifier of the application, or
/// the name of the provider for candidates that are no applications.
#[derive(Clone, Debug)]
pub struct AppItem {
    pub name: String,
    pub action: String,
    pub terminal: bool,
    pub icon: String,
    pub desktop_id: String,
    pub system_icon: IconSource,
}

/// The mathematical value of an [`AppItem`].
pub struct AppItemView {
    pub name: Seq<char>,
    pub action: Seq<char>,
    pub terminal: bool,
    pub icon: Seq<char>,
    pub desktop_id: Seq<char>,
    pub system_icon: IconSourceView,
}

impl View for AppItem {
    type V = AppItemView;

    open spec fn view(&self) -> AppItemView {
        AppItemView {
            name: self.name@,
            action: self.action@,
            terminal: self.terminal,
            icon: self.icon@,
            desktop_id: self.desktop_id@,
            system_icon: self.system_icon@,
        }
    }
}

/// The kind of source that a desktop identifier stands for.
pub open spec fn kind_of(desktop_id: Seq<char>) -> SourceKind {
    if desktop_id == "file"@ {
        SourceKind::File
    } else if desktop_id == "web"@ {
        SourceKind::Web
    } else if desktop_id == "calc"@ {
        SourceKind::Calc
    } else if desktop_id == "clipboard"@ {
        SourceKind::Clipboard
    } else if desktop_id == "system"@ {
        SourceKind::System
    } else if desktop_id == "internal"@ {
        SourceKind::Internal
    } else if desktop_id == "color"@ {
        SourceKind::Color
    } else {
        SourceKind::App
    }
}

/// A candidate that is no application: it has no picture and does not run
/// in a terminal.
pub open spec fn plain_item(
    name: Seq<char>,
    action: Seq<char>,
    icon: Seq<char>,
    desktop_id: Seq<char>,
) -> AppItemView {
    AppItemView {
        name,
        action,
        terminal: false,
        icon,
        desktop_id,
        system_icon: IconSourceView::Glyph,
    }
}

/// The kind of source of a desktop identifier.
pub fn source_kind(desktop_id: &str) -> (k: SourceKind)
    ensures
        k == kind_of(desktop_id@),
{
    if str_eq(desktop_id, "file") {
        SourceKind::File
    } else if str_eq(desktop_id, "web") {
        SourceKind::Web
    } else if str_eq(desktop_id, "calc") {
        SourceKind::Calc
    } else if str_eq(desktop_id, "clipboard") {
        SourceKind::Clipboard
    } else if str_eq(desktop_id, "system") {
        SourceKind::System
    } else if str_eq(desktop_id, "internal") {
        SourceKind::Internal
    } else if str_eq(desktop_id, "color") {
        SourceKind::Color
    } else {
        SourceKind::App
    }
}

impl AppItem {
    /// A candidate that is no application.
    pub fn plain(name: &str, action: &str, icon: &str, desktop_id: &str) -> (r: AppItem)
        ensures
            r@ == plain_item(name@, action@, icon@, desktop_id@),
    {
        AppItem {
            name: copy_str(name),
            action: copy_str(action),
            terminal: false,
            icon: copy_str(icon),
            desktop_id: copy_str(desktop_id),
            system_icon: IconSource::Glyph,
        }
    }

    /// A copy of the candidate.
    pub fn duplicate(&self) -> (r: AppItem)
        ensures
            r@ == self@,
    {
        AppItem {
            name: copy_str(self.name.as_str()),
            action: copy_str(self.action.as_str()),
            terminal: self.terminal,
            icon: copy_str(self.icon.as_str()),
            desktop_id: copy_str(self.desktop_id.as_str()),
            system_icon: self.system_icon.duplicate(),
        }
    }

    /// The kind of source that produced this candidate.
    pub fn kind(&self) -> (k: SourceKind)
        ensures
            k == kind_of(self@.desktop_id),
    {
        source_kind(self.desktop_id.as_str())
    }
}

/// The views of a list of candidates.
pub open spec fn item_views(items: Seq<AppItem>) -> Seq<AppItemView> {
    items.map_values(|a: AppItem| a@)
}

/// A copy of a list of candidates.
pub fn duplicate_all(items: &Vec<AppItem>) -> (r: Vec<AppItem>)
    ensures
        item_views(r@) == item_views(items@),
{
    let mut out: Vec<AppItem> = Vec::new();
    let mut i: usize = 0;
    while i < items.len()
        invariant
            i <= items.len(),
            item_views(out@) == item_views(items@).take(i as int),
        decreases items.len() - i,
    {
        let ghost before = out@;
        out.push(items[i].duplicate());
        i += 1;
        assert(item_views(out@) =~= item_views(before).push(items@[i - 1]@));
        assert(item_views(items@).take(i as int) =~= item_views(items@).take(i - 1).push(
            items@[i - 1]@,
        ));
    }
    assert(item_views(items@).take(items.len() as int) =~= item_views(items@));
    out
}

/// Appends copies of the candidates of `tail` to `list`.
pub fn extend(list: &mut Vec<AppItem>, tail: &Vec<AppItem>)
    ensures
        item_views(final(list)@) == item_views(old(list)@) + item_views(tail@),
{
    let mut i: usize = 0;
    assert(item_views(list@) =~= item_views(old(list)@) + item_views(tail@).take(0));
    while i < tail.len()
        invariant
            i <= tail.len(),
            item_views(list@) == item_views(old(list)@) + item_views(tail@).take(i as int),
        decreases tail.len() - i,
    {
        let ghost before = list@;
        list.push(tail[i].duplicate());
        i += 1;
        assert(item_views(list@) =~= item_views(before).push(tail@[i - 1]@));
        assert(item_views(tail@).take(i as int) =~= item_views(tail@).take(i - 1).push(
            tail@[i - 1]@,
        ));
        assert(item_views(list@) =~= item_views(old(list)@) + item_views(tail@).take(i as int));
    }
    assert(item_views(tail@).take(tail.len() as int) =~= item_views(tail@));
}

/// Copies of the candidates of `items` in the order that `order` gives.
pub fn pick(items: &Vec<AppItem>, order: &Vec<usize>) -> (r: Vec<AppItem>)
    requires
        forall|i: int| 0 <= i < order@.len() ==> #[trigger] order@[i] < items@.len(),
    ensures
        item_views(r@) == picked(item_views(items@), ints(order@)),
{
    let mut out: Vec<AppItem> = Vec::new();
    let mut i: usize = 0;
    while i < order.len()
        invariant
            i <= order.len(),
            forall|k: int| 0 <= k < order@.len() ==> #[trigger] order@[k] < items@.len(),
            out@.len() == i,
            forall|k: int| 0 <= k < i ==> (#[trigger] out@[k])@ == items@[order@[k] as int]@,
        decreases order.len() - i,
    {
        out.push(items[order[i]].duplicate());
        i += 1;
    }
    assert(item_views(out@) =~= picked(item_views(items@), ints(order@)));
    out
}


/// Whether some candidate of `items` has the name `name`.
pub open spec fn has_name(items: Seq<AppItemView>, name: Seq<char>) -> bool {
    exists|i: int| 0 <= i < items.len() && (#[trigger] items[i]).name == name
}

/// Whether some candidate of `items` has the name `name`.
pub fn name_listed(items: &Vec<AppItem>, name: &Vec<char>) -> (r: bool)
    ensures
        r == has_name(item_views(items@), name@),
{
    let mut i: usize = 0;
    while i < items.len()
        invariant
            i <= items.len(),
            forall|j: int| 0 <= j < i ==> (#[trigger] item_views(items@)[j]).name != name@,
        decreases items.len() - i,
    {
        let n = chars_of(items[i].name.as_str());
        if same(&n, name) {
            assert(item_views(items@)[i as int].name == name@);
            return true;
        }
        i += 1;
    }
    false
}

/// A candidate that is no application, from character buffers.
pub fn plain_from(name: &Vec<char>, action: &Vec<char>, icon: &str, desktop_id: &str) -> (r:
    AppItem)
    ensures
        r@ == plain_item(name@, action@, icon@, desktop_id@),
{
    AppItem {
        name: string_of(name),
        action: string_of(action),
        terminal: false,
        icon: copy_str(icon),
        desktop_id: copy_str(desktop_id),
        system_icon: IconSource::Glyph,
    }
}


/// Copies of the candidates of `items` in the order of their ranks.
pub fn ranked(items: &Vec<AppItem>, ranks: &Vec<Rank>) -> (r: Vec<AppItem>)
    requires
        items@.len() == ranks@.len(),
    ensures
        item_views(r@) == picked(item_views(items@), sort_order(rank_views(ranks@))),
        r@.len() == items@.len(),
{
    let order = order_of(ranks);
    let r = pick(items, &order);
    assert(r@.len() == item_views(r@).len());
    r
}

/// Copies of the first `n` candidates of `items`, or of all if there are
/// fewer.
pub fn first(items: &Vec<AppItem>, n: usize) -> (r: Vec<AppItem>)
    ensures
        item_views(r@) == item_views(items@).take(
            if n <= items@.len() {
                n as int
            } else {
                items@.len() as int
            },
        ),
{
    let end: usize = if n <= items.len() {
        n
    } else {
        items.len()
    };
    let mut out: Vec<AppItem> = Vec::new();
    let mut i: usize = 0;
    while i < end
        invariant
            i <= end <= items.len(),
            out@.len() == i,
            forall|k: int| 0 <= k < i ==> (#[trigger] out@[k])@ == items@[k]@,
        decreases end - i,
    {
        out.push(items[i].duplicate());
        i += 1;
    }
    assert(item_views(out@) =~= item_views(items@).take(end as int));
    out
}


/// Whether no candidate of `items` has the desktop identifier `id`.
pub open spec fn none_from(items: Seq<AppItemView>, id: Seq<char>) -> bool {
    forall|i: int| 0 <= i < items.len() ==> (#[trigger] items[i]).desktop_id != id
}

/// What holds of no candidate of two lists holds of none of both together.
pub proof fn lemma_none_from_both(a: Seq<AppItemView>, b: Seq<AppItemView>, id: Seq<char>)
    requires
        none_from(a, id),
        none_from(b, id),
    ensures
        none_from(a + b, id),
{
    assert forall|i: int| 0 <= i < (a + b).len() implies (#[trigger] (a + b)[i]).desktop_id != id by {
        if i < a.len() {
            assert((a + b)[i] == a[i]);
        } else {
            assert((a + b)[i] == b[i - a.len()]);
        }
    }
}

} // verus!
