//! Changing what the user has arranged of an application.

use vstd::prelude::*;
use crate::apps::{override_views, Override, Overrides};
use crate::config::{CustomApp, CustomAppView};
use crate::text::{chars_of, copy_str, same};

verus! {

/// One change to the record of an application.
#[derive(Clone, Debug)]
pub enum Change {
    /// The name; an empty name takes the change back.
    Name(String),
    /// The glyph; an empty glyph takes the change back.
    Glyph(String),
    /// The picture; an empty picture takes the change back.
    Picture(String),
    /// Whether the application is hidden.
    Hidden(bool),
}

/// The mathematical value of a [`Change`].
pub enum ChangeView {
    Name(Seq<char>),
    Glyph(Seq<char>),
    Picture(Seq<char>),
    Hidden(bool),
}

impl View for Change {
    type V = ChangeView;

    open spec fn view(&self) -> ChangeView {
        match *self {
            Change::Name(t) => ChangeView::Name(t@),
            Change::Glyph(t) => ChangeView::Glyph(t@),
            Change::Picture(t) => ChangeView::Picture(t@),
            Change::Hidden(b) => ChangeView::Hidden(b),
        }
    }
}

/// A text as the value of a field: no value for the empty text.
pub open spec fn field(text: Seq<char>) -> Option<Seq<char>> {
    if text.len() == 0 {
        None
    } else {
        Some(text)
    }
}

/// The record after a change.
pub open spec fn changed(record: CustomAppView, change: ChangeView) -> CustomAppView {
    match change {
        ChangeView::Name(t) => CustomAppView { name: field(t), ..record },
        ChangeView::Glyph(t) => CustomAppView { icon: field(t), ..record },
        ChangeView::Picture(t) => CustomAppView { system_icon: field(t), ..record },
        ChangeView::Hidden(b) => CustomAppView { hidden: Some(b), ..record },
    }
}

/// The record that changes nothing.
pub open spec fn blank() -> CustomAppView {
    CustomAppView { name: None, icon: None, system_icon: None, hidden: None }
}

/// The index of the first record filed under `key`, from `from` on.
pub open spec fn position_from(store: Overrides, key: Seq<char>, from: int) -> Option<int>
    decreases store.len() - from + 1,
{
    if from < 0 || from >= store.len() {
        None
    } else if store[from].0 == key {
        Some(from)
    } else {
        position_from(store, key, from + 1)
    }
}

/// The records after the record filed under `id` has been changed.  Where
/// none is filed there, a blank one is filed first.
pub open spec fn store_after(store: Overrides, id: Seq<char>, change: ChangeView) -> Overrides {
    match position_from(store, id, 0) {
        Some(i) => store.update(i, (id, changed(store[i].1, change))),
        None => store.push((id, changed(blank(), change))),
    }
}

/// `position_from` finds the first index under the key, and `lookup_from`
/// the record there.
pub proof fn lemma_position(store: Overrides, key: Seq<char>, from: int)
    requires
        0 <= from,
    ensures
        match position_from(store, key, from) {
            Some(i) => from <= i < store.len() && store[i].0 == key && crate::apps::lookup_from(
                store,
                key,
                from,
            ) == Some(store[i].1) && forall|j: int| from <= j < i ==> store[j].0 != key,
            None => crate::apps::lookup_from(store, key, from) is None && forall|j: int|
                from <= j < store.len() ==> store[j].0 != key,
        },
    decreases store.len() - from + 1,
{
    if from < store.len() && store[from].0 != key {
        lemma_position(store, key, from + 1);
    }
}

proof fn lemma_lookup_reaches(store: Overrides, key: Seq<char>, from: int, i: int)
    requires
        0 <= from <= i < store.len(),
        store[i].0 == key,
        forall|j: int| from <= j < i ==> store[j].0 != key,
    ensures
        crate::apps::lookup_from(store, key, from) == Some(store[i].1),
    decreases i - from,
{
    if from < i {
        lemma_lookup_reaches(store, key, from + 1, i);
    }
}

/// After a change the record found under `id` is the record that was found
/// there before, or the blank one, with the change made.
pub proof fn lemma_changed_record_is_found(store: Overrides, id: Seq<char>, change: ChangeView)
    ensures
        crate::apps::lookup(store_after(store, id, change), id) == Some(
            changed(
                match crate::apps::lookup(store, id) {
                    Some(r) => r,
                    None => blank(),
                },
                change,
            ),
        ),
{
    lemma_position(store, id, 0);
    let after = store_after(store, id, change);
    match position_from(store, id, 0) {
        Some(i) => {
            lemma_lookup_reaches(after, id, 0, i);
        },
        None => {
            lemma_lookup_reaches(after, id, 0, store.len() as int);
        },
    }
}

fn text_field(text: &str) -> (r: Option<String>)
    ensures
        crate::config::text_view(r) == field(text@),
{
    if chars_of(text).len() == 0 {
        None
    } else {
        Some(copy_str(text))
    }
}

fn copy_field(f: &Option<String>) -> (r: Option<String>)
    ensures
        crate::config::text_view(r) == crate::config::text_view(*f),
{
    match f {
        Some(t) => Some(copy_str(t.as_str())),
        None => None,
    }
}

fn change_record(record: &CustomApp, change: &Change) -> (r: CustomApp)
    ensures
        r@ == changed(record@, change@),
{
    let mut out = CustomApp {
        name: copy_field(&record.name),
        icon: copy_field(&record.icon),
        system_icon: copy_field(&record.system_icon),
        hidden: record.hidden,
    };
    match change {
        Change::Name(t) => {
            out.name = text_field(t.as_str());
        },
        Change::Glyph(t) => {
            out.icon = text_field(t.as_str());
        },
        Change::Picture(t) => {
            out.system_icon = text_field(t.as_str());
        },
        Change::Hidden(b) => {
            out.hidden = Some(*b);
        },
    }
    out
}

/// Changes the record filed under `id`.
pub fn apply_change(store: &mut Vec<Override>, id: &str, change: &Change)
    ensures
        override_views(final(store)@) == store_after(override_views(old(store)@), id@, change@),
{
    let key = chars_of(id);
    let ghost sv = override_views(store@);
    let mut i: usize = 0;
    while i < store.len()
        invariant
            i <= store.len(),
            store@ == old(store)@,
            sv == override_views(store@),
            key@ == id@,
            position_from(sv, id@, 0) == position_from(sv, id@, i as int),
        decreases store.len() - i,
    {
        if same(&chars_of(store[i].key.as_str()), &key) {
            let record = change_record(&store[i].app, change);
            store.set(i, Override { key: copy_str(id), app: record });
            assert(override_views(store@) =~= store_after(sv, id@, change@));
            return ;
        }
        i += 1;
    }
    let blank_record = CustomApp { name: None, icon: None, system_icon: None, hidden: None };
    let record = change_record(&blank_record, change);
    store.push(Override { key: copy_str(id), app: record });
    assert(override_views(store@) =~= store_after(sv, id@, change@));
}

} // verus!
