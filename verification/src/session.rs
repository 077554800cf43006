//! The session: the state of the launcher and what each input does to it.
//!
//! The session holds which list is shown and what is highlighted.  An input
//! changes the session and names what the caller has to do: the session
//! never touches a window, a file or a process itself.

use vstd::prelude::*;
use crate::apps::{by_usage, fuzzy_scores, sort_by_usage, Override};
use crate::candidate::{duplicate_all, item_views, kind_of, AppItem, AppItemView, SourceKind};
use crate::clipboard::{clipboard_entries, filter_by_name, get_clipboard_history, matching};
use crate::color::{is_color_query, is_color_text, parse_color, typed_color, TypedColor};
use crate::config::{option_views, PowerOption, PowerOptionView};
use crate::history::{removed, Entries, History};
use crate::launch::{action_key, normalized_key};
use crate::overrides::{apply_change, store_after, Change, ChangeView};
use crate::resolve::{merged, resolve};
use crate::text::{chars_of, concat, copy, copy_str, ends_with, has_prefix, has_suffix,
    remove_prefixes, slice, starts_with, str_eq, string_of, strip_prefixes};
use crate::web::regex_language;

verus! {

/// Which list the launcher shows.
#[derive(Clone, Copy, PartialEq, Eq, Structural, Debug)]
pub enum SelectionMode {
    Apps,
    Power,
    Clipboard,
    Color,
}

/// Whether the user is changing the name or the icon of an application.
#[derive(Clone, Copy, PartialEq, Eq, Structural, Debug)]
pub enum EditingMode {
    Idle,
    Rename,
    Icon,
}

/// What the user did, as far as the session tells inputs apart.
#[derive(Clone, Copy, PartialEq, Eq, Structural, Debug)]
pub enum Key {
    Escape,
    Enter,
    Delete,
    Tab,
    Up,
    Down,
    Left,
    Right,
    /// The hotkey that shows the hidden applications, or the others.
    ToggleHidden,
    /// The hotkey that renames an application.
    Rename,
    /// The hotkey that changes the icon of an application.
    EditIcon,
    /// The hotkey that hides an application, or shows it again.
    HideApp,
    /// The hotkey that changes between glyphs and pictures.
    ToggleIconMode,
    /// The hotkey of the clipboard history.
    Clipboard,
    /// The hotkey of the color picker.
    ColorPicker,
    /// A character for the text field, typed without a modifier.
    Printable,
    /// Anything else.
    Other,
}

/// What the caller has to do after an input.
#[derive(Clone, Debug)]
pub enum KeyOutcome {
    /// Nothing; the input is passed on.
    Ignored,
    /// Show the session anew; the input is used up.
    Handled,
    /// Close the window.
    Close,
    /// Hide the edit field.
    EditCancelled,
    /// Hand the text of the edit field to [`handle_app_edit`].
    CommitEdit,
    /// Hand the text of the text field to the session again.
    Requery,
    /// Read the applications again and hand them to
    /// [`LauncherState::set_apps`].
    ReloadApps,
    /// Show the edit field under `label`, filled with `text`; `glyph` says
    /// whether it holds a glyph.
    BeginEdit { label: String, text: String, glyph: bool },
    /// File that the application `id` is hidden, or is not, and read the
    /// applications again.
    HideApp { id: String, hidden: bool },
    /// Save the icon mode and read the applications again.
    SaveIconMode { mode: String },
    /// Read the clipboard history and hand it to
    /// [`LauncherState::enter_clipboard`].
    LoadClipboard,
    /// Empty the text field and show the session anew.
    ClearText,
    /// Put the path into the text field, as [`completed_text`] gives it.
    CompletePath { path: String },
    /// The color picker has the input.
    ColorControl,
    /// Copy the color that the picker shows, and close the window.
    CopyColor,
    /// Launch the action, and close the window.
    Launch { action: String, terminal: bool, desktop_id: Option<String> },
    /// Show the hotkey help.
    ShowHotkeys,
    /// Pass the input on to the text field, which gets the focus.
    PassToText,
}

/// The mathematical value of a [`KeyOutcome`].
pub enum KeyOutcomeView {
    Ignored,
    Handled,
    Close,
    EditCancelled,
    CommitEdit,
    Requery,
    ReloadApps,
    BeginEdit { label: Seq<char>, text: Seq<char>, glyph: bool },
    HideApp { id: Seq<char>, hidden: bool },
    SaveIconMode { mode: Seq<char> },
    LoadClipboard,
    ClearText,
    CompletePath { path: Seq<char> },
    ColorControl,
    CopyColor,
    Launch { action: Seq<char>, terminal: bool, desktop_id: Option<Seq<char>> },
    ShowHotkeys,
    PassToText,
}

impl View for KeyOutcome {
    type V = KeyOutcomeView;

    open spec fn view(&self) -> KeyOutcomeView {
        match *self {
            KeyOutcome::Ignored => KeyOutcomeView::Ignored,
            KeyOutcome::Handled => KeyOutcomeView::Handled,
            KeyOutcome::Close => KeyOutcomeView::Close,
            KeyOutcome::EditCancelled => KeyOutcomeView::EditCancelled,
            KeyOutcome::CommitEdit => KeyOutcomeView::CommitEdit,
            KeyOutcome::Requery => KeyOutcomeView::Requery,
            KeyOutcome::ReloadApps => KeyOutcomeView::ReloadApps,
            KeyOutcome::BeginEdit { label, text, glyph } => KeyOutcomeView::BeginEdit {
                label: label@,
                text: text@,
                glyph,
            },
            KeyOutcome::HideApp { id, hidden } => KeyOutcomeView::HideApp { id: id@, hidden },
            KeyOutcome::SaveIconMode { mode } => KeyOutcomeView::SaveIconMode { mode: mode@ },
            KeyOutcome::LoadClipboard => KeyOutcomeView::LoadClipboard,
            KeyOutcome::ClearText => KeyOutcomeView::ClearText,
            KeyOutcome::CompletePath { path } => KeyOutcomeView::CompletePath { path: path@ },
            KeyOutcome::ColorControl => KeyOutcomeView::ColorControl,
            KeyOutcome::CopyColor => KeyOutcomeView::CopyColor,
            KeyOutcome::Launch { action, terminal, desktop_id } => KeyOutcomeView::Launch {
                action: action@,
                terminal,
                desktop_id: crate::config::text_view(desktop_id),
            },
            KeyOutcome::ShowHotkeys => KeyOutcomeView::ShowHotkeys,
            KeyOutcome::PassToText => KeyOutcomeView::PassToText,
        }
    }
}

/// The state of the launcher.
#[derive(Debug)]
pub struct LauncherState {
    pub all_apps: Vec<AppItem>,
    pub filtered_apps: Vec<AppItem>,
    pub clipboard_items: Vec<AppItem>,
    pub app_index: usize,
    pub power_index: usize,
    pub clip_index: usize,
    pub power_options: Vec<PowerOption>,
    pub mode: SelectionMode,
    pub editing_mode: EditingMode,
    pub editing_id: Option<String>,
    pub history: History,
    pub show_hidden: bool,
    pub show_hotkeys: bool,
    pub icon_mode: String,
    pub search_engine: String,
    /// The expression for the shape of a bare link.
    pub url_re: regex::Regex,
    pub is_syncing: bool,
}

/// The mathematical value of a [`LauncherState`].
pub struct StateView {
    pub all_apps: Seq<AppItemView>,
    pub filtered_apps: Seq<AppItemView>,
    pub clipboard_items: Seq<AppItemView>,
    pub app_index: usize,
    pub power_index: usize,
    pub clip_index: usize,
    pub power_options: Seq<PowerOptionView>,
    pub mode: SelectionMode,
    pub editing_mode: EditingMode,
    pub editing_id: Option<Seq<char>>,
    pub history: Entries,
    pub show_hidden: bool,
    pub show_hotkeys: bool,
    pub icon_mode: Seq<char>,
    pub search_engine: Seq<char>,
    /// The texts that have the shape of a bare link.
    pub links: Set<Seq<char>>,
    pub is_syncing: bool,
}

impl View for LauncherState {
    type V = StateView;

    open spec fn view(&self) -> StateView {
        StateView {
            all_apps: item_views(self.all_apps@),
            filtered_apps: item_views(self.filtered_apps@),
            clipboard_items: item_views(self.clipboard_items@),
            app_index: self.app_index,
            power_index: self.power_index,
            clip_index: self.clip_index,
            power_options: option_views(self.power_options@),
            mode: self.mode,
            editing_mode: self.editing_mode,
            editing_id: crate::config::text_view(self.editing_id),
            history: self.history@,
            show_hidden: self.show_hidden,
            show_hotkeys: self.show_hotkeys,
            icon_mode: self.icon_mode@,
            search_engine: self.search_engine@,
            links: regex_language(self.url_re),
            is_syncing: self.is_syncing,
        }
    }
}

/// Whether `index` is a place in a list of the length `len`: a place in
/// the list, or the first place of an empty list.
pub open spec fn index_ok(index: usize, len: nat) -> bool {
    index < len || (len == 0 && index == 0)
}

/// The invariant of the session: the cursor of the list that is shown is a
/// place in that list.
pub open spec fn cursor_ok(s: StateView) -> bool {
    match s.mode {
        SelectionMode::Apps => index_ok(s.app_index, s.filtered_apps.len()),
        SelectionMode::Clipboard => index_ok(s.clip_index, s.filtered_apps.len()),
        SelectionMode::Power => index_ok(s.power_index, s.power_options.len()),
        SelectionMode::Color => true,
    }
}

/// The candidate that is highlighted, if one is.
pub open spec fn highlighted(s: StateView) -> Option<AppItemView> {
    match s.mode {
        SelectionMode::Apps => if s.app_index < s.filtered_apps.len() {
            Some(s.filtered_apps[s.app_index as int])
        } else {
            None
        },
        SelectionMode::Clipboard => if s.clip_index < s.filtered_apps.len() {
            Some(s.filtered_apps[s.clip_index as int])
        } else {
            None
        },
        _ => None,
    }
}

/// The application that the hotkeys for one application work on: the
/// highlighted candidate of the list of applications, if it is an
/// application.
pub open spec fn highlighted_app(s: StateView) -> Option<AppItemView> {
    if s.mode == SelectionMode::Apps && highlighted(s) is Some && kind_of(
        highlighted(s)->0.desktop_id,
    ) == SourceKind::App {
        highlighted(s)
    } else {
        None
    }
}

/// Whether the history remembers candidates of this kind, so that the user
/// can make it forget one.
pub open spec fn is_forgettable(kind: SourceKind) -> bool {
    kind == SourceKind::File || kind == SourceKind::Web || kind == SourceKind::Clipboard
}

/// An index that is a place in a list of the length `len`: `index` if it
/// is one, else the first.
pub open spec fn settled(index: usize, len: nat) -> usize {
    if index < len {
        index
    } else {
        0
    }
}

/// One step down in a list of the length `len`, staying at the end.
pub open spec fn step_down(index: usize, len: nat) -> usize {
    if index + 1 < len {
        (index + 1) as usize
    } else {
        index
    }
}

/// One step up in a list, staying at the start.
pub open spec fn step_up(index: usize) -> usize {
    if index > 0 {
        (index - 1) as usize
    } else {
        index
    }
}

/// The place after `index` in a ring of the length `len`.
pub open spec fn ring_next(index: usize, len: nat) -> usize {
    if index + 1 < len {
        (index + 1) as usize
    } else {
        0
    }
}

/// The place before `index` in a ring of the length `len`.
pub open spec fn ring_previous(index: usize, len: nat) -> usize {
    if index > 0 {
        (index - 1) as usize
    } else if len > 0 {
        (len - 1) as usize
    } else {
        0
    }
}

/// The icon mode after a change between glyphs and pictures.
pub open spec fn other_icon_mode(mode: Seq<char>) -> Seq<char> {
    if mode == "system"@ {
        "nerd"@
    } else {
        "system"@
    }
}

/// What the launch of the highlighted candidate is: the action of the
/// candidate, or of the highlighted power option.
pub open spec fn chosen(s: StateView) -> Option<(Seq<char>, bool, Option<Seq<char>>)> {
    match s.mode {
        SelectionMode::Apps => match highlighted(s) {
            Some(c) => Some((c.action, c.terminal, Some(c.desktop_id))),
            None => None,
        },
        SelectionMode::Clipboard => match highlighted(s) {
            Some(c) => Some((c.action, false, None)),
            None => None,
        },
        SelectionMode::Power => if s.power_index < s.power_options.len() {
            Some((s.power_options[s.power_index as int].command, false, None))
        } else {
            None
        },
        SelectionMode::Color => None,
    }
}

/// The session after an input.
pub open spec fn state_after(s: StateView, key: Key) -> StateView {
    if s.editing_mode != EditingMode::Idle {
        if key == Key::Escape {
            StateView { editing_mode: EditingMode::Idle, editing_id: None, ..s }
        } else {
            s
        }
    } else {
        match key {
            Key::Delete => match highlighted(s) {
                Some(c) => if is_forgettable(kind_of(c.desktop_id)) {
                    StateView { history: removed(s.history, normalized_key(c.action)), ..s }
                } else {
                    s
                },
                None => s,
            },
            Key::ToggleHidden => StateView { show_hidden: !s.show_hidden, ..s },
            Key::Rename => match highlighted_app(s) {
                Some(c) => StateView {
                    editing_mode: EditingMode::Rename,
                    editing_id: Some(c.desktop_id),
                    ..s
                },
                None => s,
            },
            Key::EditIcon => match highlighted_app(s) {
                Some(c) => StateView {
                    editing_mode: EditingMode::Icon,
                    editing_id: Some(c.desktop_id),
                    ..s
                },
                None => s,
            },
            Key::ToggleIconMode => StateView { icon_mode: other_icon_mode(s.icon_mode), ..s },
            Key::Clipboard => if s.mode == SelectionMode::Clipboard {
                StateView {
                    mode: SelectionMode::Apps,
                    filtered_apps: s.all_apps,
                    app_index: 0,
                    ..s
                }
            } else {
                s
            },
            Key::ColorPicker => if s.mode == SelectionMode::Color {
                StateView {
                    mode: SelectionMode::Apps,
                    filtered_apps: s.all_apps,
                    app_index: 0,
                    ..s
                }
            } else {
                StateView { mode: SelectionMode::Color, ..s }
            },
            Key::Tab => match s.mode {
                SelectionMode::Color => s,
                SelectionMode::Apps => StateView { mode: SelectionMode::Power, power_index: 0, ..s },
                _ => StateView {
                    mode: SelectionMode::Apps,
                    app_index: settled(s.app_index, s.filtered_apps.len()),
                    ..s
                },
            },
            Key::Down => match s.mode {
                SelectionMode::Apps => StateView {
                    app_index: step_down(s.app_index, s.filtered_apps.len()),
                    ..s
                },
                SelectionMode::Clipboard => StateView {
                    clip_index: step_down(s.clip_index, s.filtered_apps.len()),
                    ..s
                },
                _ => s,
            },
            Key::Up => match s.mode {
                SelectionMode::Apps => StateView { app_index: step_up(s.app_index), ..s },
                SelectionMode::Clipboard => StateView { clip_index: step_up(s.clip_index), ..s },
                _ => s,
            },
            Key::Left => if s.mode == SelectionMode::Power {
                StateView { power_index: ring_previous(s.power_index, s.power_options.len()), ..s }
            } else {
                s
            },
            Key::Right => if s.mode == SelectionMode::Power {
                StateView { power_index: ring_next(s.power_index, s.power_options.len()), ..s }
            } else {
                s
            },
            Key::Printable => if s.mode == SelectionMode::Power {
                StateView { mode: SelectionMode::Apps, app_index: 0, ..s }
            } else {
                s
            },
            _ => s,
        }
    }
}

/// What the caller has to do after an input.
pub open spec fn outcome_of(s: StateView, key: Key) -> KeyOutcomeView {
    if s.editing_mode != EditingMode::Idle {
        match key {
            Key::Escape => KeyOutcomeView::EditCancelled,
            Key::Enter => KeyOutcomeView::CommitEdit,
            _ => KeyOutcomeView::Ignored,
        }
    } else {
        match key {
            Key::Escape => KeyOutcomeView::Close,
            Key::Delete => match highlighted(s) {
                Some(c) => if is_forgettable(kind_of(c.desktop_id)) {
                    KeyOutcomeView::Requery
                } else {
                    KeyOutcomeView::Ignored
                },
                None => KeyOutcomeView::Ignored,
            },
            Key::ToggleHidden => KeyOutcomeView::ReloadApps,
            Key::Rename => match highlighted_app(s) {
                Some(c) => KeyOutcomeView::BeginEdit {
                    label: "Rename App"@,
                    text: c.name,
                    glyph: false,
                },
                None => KeyOutcomeView::Ignored,
            },
            Key::EditIcon => match highlighted_app(s) {
                Some(c) => KeyOutcomeView::BeginEdit {
                    label: "Edit Icon"@,
                    text: if s.icon_mode == "system"@ {
                        Seq::empty()
                    } else {
                        c.icon
                    },
                    glyph: true,
                },
                None => KeyOutcomeView::Ignored,
            },
            Key::HideApp => match highlighted_app(s) {
                Some(c) => KeyOutcomeView::HideApp { id: c.desktop_id, hidden: !s.show_hidden },
                None => KeyOutcomeView::Ignored,
            },
            Key::ToggleIconMode => KeyOutcomeView::SaveIconMode {
                mode: other_icon_mode(s.icon_mode),
            },
            Key::Clipboard => if s.mode == SelectionMode::Clipboard {
                KeyOutcomeView::ClearText
            } else {
                KeyOutcomeView::LoadClipboard
            },
            Key::ColorPicker => KeyOutcomeView::ClearText,
            Key::Tab => if s.mode == SelectionMode::Color {
                KeyOutcomeView::ColorControl
            } else {
                KeyOutcomeView::Handled
            },
            Key::Down | Key::Up => if s.mode == SelectionMode::Color {
                KeyOutcomeView::ColorControl
            } else {
                KeyOutcomeView::Handled
            },
            Key::Left => match s.mode {
                SelectionMode::Power => KeyOutcomeView::Handled,
                SelectionMode::Color => KeyOutcomeView::ColorControl,
                _ => KeyOutcomeView::Ignored,
            },
            Key::Right => match s.mode {
                SelectionMode::Power => KeyOutcomeView::Handled,
                SelectionMode::Color => KeyOutcomeView::ColorControl,
                SelectionMode::Apps => match highlighted(s) {
                    Some(c) => if c.desktop_id == "file"@ {
                        KeyOutcomeView::CompletePath {
                            path: strip_prefixes(c.action, "OPEN_PATH:"@),
                        }
                    } else {
                        KeyOutcomeView::Ignored
                    },
                    None => KeyOutcomeView::Ignored,
                },
                SelectionMode::Clipboard => KeyOutcomeView::Ignored,
            },
            Key::Enter => if s.mode == SelectionMode::Color {
                KeyOutcomeView::CopyColor
            } else {
                match chosen(s) {
                    Some((action, terminal, desktop_id)) => if action == "SHOW_HOTKEYS"@ {
                        KeyOutcomeView::ShowHotkeys
                    } else {
                        KeyOutcomeView::Launch { action, terminal, desktop_id }
                    },
                    None => KeyOutcomeView::Handled,
                }
            },
            Key::Printable => if s.mode == SelectionMode::Power {
                KeyOutcomeView::PassToText
            } else {
                KeyOutcomeView::Ignored
            },
            Key::Other => KeyOutcomeView::Ignored,
        }
    }
}

/// Every input keeps the invariant of the session.
pub proof fn lemma_cursor_stays_in_list(s: StateView, key: Key)
    requires
        cursor_ok(s),
    ensures
        cursor_ok(state_after(s, key)),
{
}

/// While the user changes a name or an icon, only Escape and Enter do
/// anything, and only Escape changes the session: it ends the change.
pub proof fn lemma_editing_suppresses_input(s: StateView, key: Key)
    requires
        s.editing_mode != EditingMode::Idle,
    ensures
        key != Key::Escape ==> state_after(s, key) == s,
        key != Key::Escape && key != Key::Enter ==> outcome_of(s, key) == KeyOutcomeView::Ignored,
        state_after(s, Key::Escape).editing_mode == EditingMode::Idle,
{
}

/// What is done with a typed text.
#[derive(Clone, Copy, PartialEq, Eq, Structural, Debug)]
pub enum QueryPlan {
    /// Nothing: the session is busy.
    Ignore,
    /// The clipboard entries are narrowed down.
    FilterClipboard,
    /// The text is a color for the color picker.
    Color,
    /// The providers are asked.
    Providers,
}

/// What is done with a typed text.
pub open spec fn plan_for(s: StateView, text: Seq<char>) -> QueryPlan {
    if s.is_syncing || s.editing_mode != EditingMode::Idle {
        QueryPlan::Ignore
    } else if s.mode == SelectionMode::Clipboard {
        QueryPlan::FilterClipboard
    } else if is_color_text(text) {
        QueryPlan::Color
    } else {
        QueryPlan::Providers
    }
}

/// The session after a text has been typed, where `calc` and `files` are
/// what the calculator and the file provider found for it.
pub open spec fn state_after_text(
    s: StateView,
    text: Seq<char>,
    calc: Option<AppItemView>,
    files: Seq<AppItemView>,
) -> StateView {
    match plan_for(s, text) {
        QueryPlan::Ignore => s,
        QueryPlan::FilterClipboard => StateView {
            filtered_apps: matching(s.clipboard_items, text),
            clip_index: 0,
            ..s
        },
        QueryPlan::Color => StateView { mode: SelectionMode::Color, ..s },
        QueryPlan::Providers => StateView {
            filtered_apps: merged(
                text,
                s.all_apps,
                s.history,
                s.power_options,
                s.search_engine,
                calc,
                files,
                s.links.contains(text),
                fuzzy_scores(s.all_apps, text),
            ),
            app_index: 0,
            mode: SelectionMode::Apps,
            ..s
        },
    }
}

/// A typed text keeps the invariant of the session.
pub proof fn lemma_text_keeps_cursor_in_list(
    s: StateView,
    text: Seq<char>,
    calc: Option<AppItemView>,
    files: Seq<AppItemView>,
)
    requires
        cursor_ok(s),
    ensures
        cursor_ok(state_after_text(s, text, calc, files)),
{
}

/// The text that completes the path of the highlighted file: the path
/// from the home directory on, `/` for the home directory itself, with a
/// `/` at the end of a directory.
pub open spec fn completion(path: Seq<char>, home: Seq<char>, is_dir: bool) -> Seq<char> {
    let from_home = if starts_with(path, home) {
        path.skip(home.len() as int)
    } else {
        path
    };
    let shown = if from_home.len() == 0 {
        "/"@
    } else {
        from_home
    };
    if (ends_with(path, "/"@) || is_dir) && !ends_with(shown, "/"@) {
        shown + "/"@
    } else {
        shown
    }
}

/// The text that completes the path of the highlighted file.
pub fn completed_text(path: &str, home: &str, is_dir: bool) -> (r: String)
    ensures
        r@ == completion(path@, home@, is_dir),
{
    let p = chars_of(path);
    let h = chars_of(home);
    let root = chars_of("/");
    let from_home = if has_prefix(&p, &h) {
        let rest = slice(&p, h.len(), p.len());
        assert(rest@ =~= p@.skip(h@.len() as int));
        rest
    } else {
        copy(&p)
    };
    let shown = if from_home.len() == 0 {
        copy(&root)
    } else {
        from_home
    };
    if (has_suffix(&p, &root) || is_dir) && !has_suffix(&shown, &root) {
        string_of(&concat(&shown, &root))
    } else {
        string_of(&shown)
    }
}

impl LauncherState {
    /// The invariant of the session.
    pub open spec fn wf(&self) -> bool {
        self.history.wf() && cursor_ok(self@)
    }

    /// The session at the start: the applications by usage, the first one
    /// highlighted.
    pub fn new(
        apps: Vec<AppItem>,
        power_options: Vec<PowerOption>,
        history: History,
        icon_mode: &str,
        search_engine: &str,
        url_re: regex::Regex,
        show_hotkeys: bool,
    ) -> (s: LauncherState)
        requires
            history.wf(),
        ensures
            s.wf(),
            s@ == (StateView {
                all_apps: item_views(apps@),
                filtered_apps: by_usage(item_views(apps@), history@),
                clipboard_items: Seq::empty(),
                app_index: 0,
                power_index: 0,
                clip_index: 0,
                power_options: option_views(power_options@),
                mode: SelectionMode::Apps,
                editing_mode: EditingMode::Idle,
                editing_id: None,
                history: history@,
                show_hidden: false,
                show_hotkeys,
                icon_mode: icon_mode@,
                search_engine: search_engine@,
                links: regex_language(url_re),
                is_syncing: false,
            }),
    {
        let filtered = sort_by_usage(&apps, &history);
        let clipboard_items: Vec<AppItem> = Vec::new();
        assert(item_views(clipboard_items@) =~= Seq::<AppItemView>::empty());
        LauncherState {
            all_apps: apps,
            filtered_apps: filtered,
            clipboard_items,
            app_index: 0,
            power_index: 0,
            clip_index: 0,
            power_options,
            mode: SelectionMode::Apps,
            editing_mode: EditingMode::Idle,
            editing_id: None,
            history,
            show_hidden: false,
            show_hotkeys,
            icon_mode: copy_str(icon_mode),
            search_engine: copy_str(search_engine),
            url_re,
            is_syncing: false,
        }
    }

    /// The index of the highlighted candidate, if one is highlighted.
    pub fn cursor(&self) -> (r: Option<usize>)
        ensures
            match r {
                Some(i) => i < self.filtered_apps@.len() && highlighted(self@) == Some(
                    self.filtered_apps@[i as int]@,
                ),
                None => highlighted(self@) is None,
            },
    {
        let index = match self.mode {
            SelectionMode::Apps => self.app_index,
            SelectionMode::Clipboard => self.clip_index,
            _ => {
                return None;
            },
        };
        if index < self.filtered_apps.len() {
            assert(item_views(self.filtered_apps@)[index as int] == self.filtered_apps@[index as int]@);
            Some(index)
        } else {
            None
        }
    }

    fn cursor_on_app(&self) -> (r: Option<usize>)
        ensures
            match r {
                Some(i) => i < self.filtered_apps@.len() && highlighted_app(self@) == Some(
                    self.filtered_apps@[i as int]@,
                ),
                None => highlighted_app(self@) is None,
            },
    {
        if self.mode != SelectionMode::Apps {
            return None;
        }
        match self.cursor() {
            Some(i) => {
                if self.filtered_apps[i].kind() == SourceKind::App {
                    Some(i)
                } else {
                    None
                }
            },
            None => None,
        }
    }

    fn show_all_apps(&mut self)
        ensures
            final(self)@ == (StateView {
                mode: SelectionMode::Apps,
                filtered_apps: old(self)@.all_apps,
                app_index: 0,
                ..old(self)@
            }),
            final(self).history == old(self).history,
    {
        self.mode = SelectionMode::Apps;
        self.filtered_apps = duplicate_all(&self.all_apps);
        self.app_index = 0;
    }

    fn press_enter(&self) -> (r: KeyOutcome)
        requires
            self.editing_mode == EditingMode::Idle,
        ensures
            r@ == outcome_of(self@, Key::Enter),
    {
        let (action, terminal, desktop_id): (String, bool, Option<String>) = match self.mode {
            SelectionMode::Color => {
                return KeyOutcome::CopyColor;
            },
            SelectionMode::Apps => match self.cursor() {
                Some(i) => {
                    let c = &self.filtered_apps[i];
                    (
                        copy_str(c.action.as_str()),
                        c.terminal,
                        Some(copy_str(c.desktop_id.as_str())),
                    )
                },
                None => {
                    return KeyOutcome::Handled;
                },
            },
            SelectionMode::Clipboard => match self.cursor() {
                Some(i) => (copy_str(self.filtered_apps[i].action.as_str()), false, None),
                None => {
                    return KeyOutcome::Handled;
                },
            },
            SelectionMode::Power => {
                if self.power_index < self.power_options.len() {
                    assert(option_views(self.power_options@)[self.power_index as int]
                        == self.power_options@[self.power_index as int]@);
                    (copy_str(self.power_options[self.power_index].command.as_str()), false, None)
                } else {
                    return KeyOutcome::Handled;
                }
            },
        };
        if str_eq(action.as_str(), "SHOW_HOTKEYS") {
            KeyOutcome::ShowHotkeys
        } else {
            KeyOutcome::Launch { action, terminal, desktop_id }
        }
    }

    fn press_delete(&mut self) -> (r: KeyOutcome)
        requires
            old(self).wf(),
            old(self).editing_mode == EditingMode::Idle,
        ensures
            final(self).history.wf(),
            final(self)@ == state_after(old(self)@, Key::Delete),
            r@ == outcome_of(old(self)@, Key::Delete),
    {
        match self.cursor() {
            Some(i) => {
                let kind = self.filtered_apps[i].kind();
                if kind == SourceKind::File || kind == SourceKind::Web || kind
                    == SourceKind::Clipboard {
                    let key = action_key(self.filtered_apps[i].action.as_str());
                    self.history.remove(key.as_str());
                    KeyOutcome::Requery
                } else {
                    KeyOutcome::Ignored
                }
            },
            None => KeyOutcome::Ignored,
        }
    }

    fn begin_edit(&mut self, icon: bool) -> (r: KeyOutcome)
        requires
            old(self).editing_mode == EditingMode::Idle,
        ensures
            final(self).history == old(self).history,
            final(self)@ == state_after(
                old(self)@,
                if icon {
                    Key::EditIcon
                } else {
                    Key::Rename
                },
            ),
            r@ == outcome_of(
                old(self)@,
                if icon {
                    Key::EditIcon
                } else {
                    Key::Rename
                },
            ),
    {
        match self.cursor_on_app() {
            Some(i) => {
                let c = &self.filtered_apps[i];
                let id = copy_str(c.desktop_id.as_str());
                let outcome = if icon {
                    KeyOutcome::BeginEdit {
                        label: copy_str("Edit Icon"),
                        text: if str_eq(self.icon_mode.as_str(), "system") {
                            String::new()
                        } else {
                            copy_str(c.icon.as_str())
                        },
                        glyph: true,
                    }
                } else {
                    KeyOutcome::BeginEdit {
                        label: copy_str("Rename App"),
                        text: copy_str(c.name.as_str()),
                        glyph: false,
                    }
                };
                self.editing_mode = if icon {
                    EditingMode::Icon
                } else {
                    EditingMode::Rename
                };
                self.editing_id = Some(id);
                outcome
            },
            None => KeyOutcome::Ignored,
        }
    }

    fn press_right(&mut self) -> (r: KeyOutcome)
        requires
            old(self).editing_mode == EditingMode::Idle,
        ensures
            final(self).history == old(self).history,
            final(self)@ == state_after(old(self)@, Key::Right),
            r@ == outcome_of(old(self)@, Key::Right),
    {
        assert(self@.power_options.len() == self.power_options.len());
        match self.mode {
            SelectionMode::Power => {
                self.power_index = if self.power_index < usize::MAX && self.power_index + 1
                    < self.power_options.len() {
                    self.power_index + 1
                } else {
                    0
                };
                KeyOutcome::Handled
            },
            SelectionMode::Color => KeyOutcome::ColorControl,
            SelectionMode::Clipboard => KeyOutcome::Ignored,
            SelectionMode::Apps => match self.cursor() {
                Some(i) => {
                    let c = &self.filtered_apps[i];
                    if str_eq(c.desktop_id.as_str(), "file") {
                        let path = remove_prefixes(
                            &chars_of(c.action.as_str()),
                            &chars_of("OPEN_PATH:"),
                        );
                        KeyOutcome::CompletePath { path: string_of(&path) }
                    } else {
                        KeyOutcome::Ignored
                    }
                },
                None => KeyOutcome::Ignored,
            },
        }
    }

    /// Takes an input: changes the session and says what the caller has to
    /// do.
    pub fn handle_key(&mut self, key: Key) -> (r: KeyOutcome)
        requires
            old(self).wf(),
        ensures
            final(self).wf(),
            final(self)@ == state_after(old(self)@, key),
            r@ == outcome_of(old(self)@, key),
    {
        proof {
            lemma_cursor_stays_in_list(self@, key);
        }
        assert(self@.power_options.len() == self.power_options.len());
        assert(self@.filtered_apps.len() == self.filtered_apps.len());
        if self.editing_mode != EditingMode::Idle {
            return match key {
                Key::Escape => {
                    self.editing_mode = EditingMode::Idle;
                    self.editing_id = None;
                    KeyOutcome::EditCancelled
                },
                Key::Enter => KeyOutcome::CommitEdit,
                _ => KeyOutcome::Ignored,
            };
        }
        match key {
            Key::Escape => KeyOutcome::Close,
            Key::Delete => self.press_delete(),
            Key::ToggleHidden => {
                self.show_hidden = !self.show_hidden;
                KeyOutcome::ReloadApps
            },
            Key::Rename => self.begin_edit(false),
            Key::EditIcon => self.begin_edit(true),
            Key::HideApp => match self.cursor_on_app() {
                Some(i) => KeyOutcome::HideApp {
                    id: copy_str(self.filtered_apps[i].desktop_id.as_str()),
                    hidden: !self.show_hidden,
                },
                None => KeyOutcome::Ignored,
            },
            Key::ToggleIconMode => {
                let mode = if str_eq(self.icon_mode.as_str(), "system") {
                    "nerd"
                } else {
                    "system"
                };
                self.icon_mode = copy_str(mode);
                KeyOutcome::SaveIconMode { mode: copy_str(mode) }
            },
            Key::Clipboard => {
                if self.mode == SelectionMode::Clipboard {
                    self.show_all_apps();
                    KeyOutcome::ClearText
                } else {
                    KeyOutcome::LoadClipboard
                }
            },
            Key::ColorPicker => {
                if self.mode == SelectionMode::Color {
                    self.show_all_apps();
                } else {
                    self.mode = SelectionMode::Color;
                }
                KeyOutcome::ClearText
            },
            Key::Tab => match self.mode {
                SelectionMode::Color => KeyOutcome::ColorControl,
                SelectionMode::Apps => {
                    self.mode = SelectionMode::Power;
                    self.power_index = 0;
                    KeyOutcome::Handled
                },
                _ => {
                    self.mode = SelectionMode::Apps;
                    if self.app_index >= self.filtered_apps.len() {
                        self.app_index = 0;
                    }
                    KeyOutcome::Handled
                },
            },
            Key::Down => match self.mode {
                SelectionMode::Color => KeyOutcome::ColorControl,
                SelectionMode::Apps => {
                    if self.app_index < usize::MAX && self.app_index + 1 < self.filtered_apps.len() {
                        self.app_index = self.app_index + 1;
                    }
                    KeyOutcome::Handled
                },
                SelectionMode::Clipboard => {
                    if self.clip_index < usize::MAX && self.clip_index + 1
                        < self.filtered_apps.len() {
                        self.clip_index = self.clip_index + 1;
                    }
                    KeyOutcome::Handled
                },
                SelectionMode::Power => KeyOutcome::Handled,
            },
            Key::Up => match self.mode {
                SelectionMode::Color => KeyOutcome::ColorControl,
                SelectionMode::Apps => {
                    if self.app_index > 0 {
                        self.app_index = self.app_index - 1;
                    }
                    KeyOutcome::Handled
                },
                SelectionMode::Clipboard => {
                    if self.clip_index > 0 {
                        self.clip_index = self.clip_index - 1;
                    }
                    KeyOutcome::Handled
                },
                SelectionMode::Power => KeyOutcome::Handled,
            },
            Key::Left => match self.mode {
                SelectionMode::Power => {
                    self.power_index = if self.power_index > 0 {
                        self.power_index - 1
                    } else if self.power_options.len() > 0 {
                        self.power_options.len() - 1
                    } else {
                        0
                    };
                    KeyOutcome::Handled
                },
                SelectionMode::Color => KeyOutcome::ColorControl,
                _ => KeyOutcome::Ignored,
            },
            Key::Right => self.press_right(),
            Key::Enter => self.press_enter(),
            Key::Printable => {
                if self.mode == SelectionMode::Power {
                    self.mode = SelectionMode::Apps;
                    self.app_index = 0;
                    KeyOutcome::PassToText
                } else {
                    KeyOutcome::Ignored
                }
            },
            Key::Other => KeyOutcome::Ignored,
        }
    }

    /// What is done with the typed text `text`.
    pub fn plan_query(&self, text: &str) -> (plan: QueryPlan)
        ensures
            plan == plan_for(self@, text@),
    {
        if self.is_syncing || self.editing_mode != EditingMode::Idle {
            QueryPlan::Ignore
        } else if self.mode == SelectionMode::Clipboard {
            QueryPlan::FilterClipboard
        } else if is_color_query(text) {
            QueryPlan::Color
        } else {
            QueryPlan::Providers
        }
    }

    /// Takes a typed text, where `calc` and `files` are what the
    /// calculator and the file provider found for it; they are read only
    /// where the providers are asked.  Returns the color that the text
    /// denotes where the text is one for the color picker.
    pub fn on_text_changed(&mut self, text: &str, calc: &Option<AppItem>, files: &Vec<AppItem>) -> (r:
        Option<TypedColor>)
        requires
            old(self).wf(),
        ensures
            final(self).wf(),
            final(self)@ == state_after_text(
                old(self)@,
                text@,
                match *calc {
                    Some(c) => Some(c@),
                    None => None,
                },
                item_views(files@),
            ),
            match r {
                Some(c) => plan_for(old(self)@, text@) == QueryPlan::Color && typed_color(text@)
                    == Some(c@),
                None => plan_for(old(self)@, text@) != QueryPlan::Color || typed_color(text@)
                    is None,
            },
            plan_for(old(self)@, text@) == QueryPlan::FilterClipboard && text@.len() == 0
                ==> final(self)@.filtered_apps == old(self)@.clipboard_items,
    {
        match self.plan_query(text) {
            QueryPlan::Ignore => None,
            QueryPlan::FilterClipboard => {
                self.filtered_apps = filter_by_name(&self.clipboard_items, text);
                self.clip_index = 0;
                None
            },
            QueryPlan::Color => {
                self.mode = SelectionMode::Color;
                parse_color(text)
            },
            QueryPlan::Providers => {
                self.filtered_apps = resolve(
                    text,
                    &self.all_apps,
                    &self.history,
                    &self.power_options,
                    self.search_engine.as_str(),
                    calc,
                    files,
                    &self.url_re,
                );
                self.app_index = 0;
                self.mode = SelectionMode::Apps;
                None
            },
        }
    }

    /// Shows the clipboard history, from its listing.
    pub fn enter_clipboard(&mut self, listing: &str)
        requires
            old(self).wf(),
        ensures
            final(self).wf(),
            final(self)@ == (StateView {
                mode: SelectionMode::Clipboard,
                clipboard_items: clipboard_entries(listing@),
                filtered_apps: clipboard_entries(listing@),
                clip_index: 0,
                ..old(self)@
            }),
    {
        self.clipboard_items = get_clipboard_history(listing);
        self.filtered_apps = duplicate_all(&self.clipboard_items);
        self.clip_index = 0;
        self.mode = SelectionMode::Clipboard;
    }

    /// Takes the applications after they have been read again.  All of
    /// them are shown.  The cursor of the applications goes to the first,
    /// or, with `keep_index`, stays where it was if that is still a place
    /// in the list, and goes to the last place if not.  The cursor of the
    /// clipboard entries goes to the first place if it is no place in the
    /// list.
    pub fn set_apps(&mut self, apps: Vec<AppItem>, keep_index: bool)
        requires
            old(self).wf(),
        ensures
            final(self).wf(),
            final(self)@ == (StateView {
                all_apps: item_views(apps@),
                filtered_apps: item_views(apps@),
                app_index: if keep_index && old(self).app_index < apps@.len() {
                    old(self).app_index
                } else if keep_index && apps@.len() > 0 {
                    (apps@.len() - 1) as usize
                } else {
                    0
                },
                clip_index: settled(old(self).clip_index, apps@.len()),
                ..old(self)@
            }),
    {
        assert(item_views(apps@).len() == apps@.len());
        self.filtered_apps = duplicate_all(&apps);
        if self.clip_index >= apps.len() {
            self.clip_index = 0;
        }
        self.app_index = if keep_index && self.app_index < apps.len() {
            self.app_index
        } else if keep_index && apps.len() > 0 {
            apps.len() - 1
        } else {
            0
        };
        self.all_apps = apps;
    }

    /// Takes the applications after they have been read again, and leaves
    /// the list that is shown as it is.
    pub fn replace_apps(&mut self, apps: Vec<AppItem>)
        ensures
            final(self)@ == (StateView { all_apps: item_views(apps@), ..old(self)@ }),
            final(self).history == old(self).history,
            old(self).wf() ==> final(self).wf(),
    {
        self.all_apps = apps;
    }
}

/// Ends the change of a name or an icon with the text `value` of the
/// edit field: the change is filed in `store`.  Returns whether there
/// was a change to end; the caller then saves the store and reads the
/// applications again.
pub fn handle_app_edit(state: &mut LauncherState, store: &mut Vec<Override>, value: &str) -> (done:
    bool)
    ensures
        final(state).history == old(state).history,
        old(state).wf() ==> final(state).wf(),
        done == old(state)@.editing_id is Some,
        !done ==> final(state)@ == old(state)@ && final(store)@ == old(store)@,
        done ==> final(state)@ == (StateView {
            editing_mode: EditingMode::Idle,
            editing_id: None,
            ..old(state)@
        }),
        done ==> crate::apps::override_views(final(store)@) == (match old(state)@.editing_mode {
            EditingMode::Idle => crate::apps::override_views(old(store)@),
            EditingMode::Rename => store_after(
                crate::apps::override_views(old(store)@),
                old(state)@.editing_id->0,
                ChangeView::Name(value@),
            ),
            EditingMode::Icon => store_after(
                crate::apps::override_views(old(store)@),
                old(state)@.editing_id->0,
                if old(state)@.icon_mode == "system"@ {
                    ChangeView::Picture(value@)
                } else {
                    ChangeView::Glyph(value@)
                },
            ),
        }),
{
    let id = match &state.editing_id {
        Some(id) => copy_str(id.as_str()),
        None => {
            return false;
        },
    };
    match state.editing_mode {
        EditingMode::Idle => {},
        EditingMode::Rename => {
            apply_change(store, id.as_str(), &Change::Name(copy_str(value)));
        },
        EditingMode::Icon => {
            let change = if str_eq(state.icon_mode.as_str(), "system") {
                Change::Picture(copy_str(value))
            } else {
                Change::Glyph(copy_str(value))
            };
            apply_change(store, id.as_str(), &change);
        },
    }
    state.editing_mode = EditingMode::Idle;
    state.editing_id = None;
    true
}

} // verus!
