//! The launch resolver: what committing an action does.
//!
//! An action is a string.  Its beginning decides what happens: a clipboard
//! entry is restored, a value is copied, a path or link is opened, or a
//! command is started.  The resolver names the effect, which the caller
//! carries out, and records the use in the history.

use vstd::prelude::*;
use crate::history::{recorded, History};
use crate::text::{append, chars_of, has_prefix, remove_leading, remove_prefixes, remove_trailing,
    replace, replaced, slice, starts_with, str_eq, string_of, strip_leading, strip_prefixes,
    strip_trailing, trim, trimmed};
use crate::windows::{find_window, first_match, window_views, WindowInfo, WindowInfoView};

verus! {

/// What the caller has to do for a launch.
#[derive(Clone, Debug)]
pub enum LaunchEffect {
    /// Nothing: the action was empty.
    Nothing,
    /// Put the clipboard entry `id` back on the clipboard.
    ClipboardSet { id: String },
    /// Copy `value` to the clipboard and notify the user under `title`.
    Copy { value: String, title: String },
    /// Focus the window `window`; no process is started.
    Focus { window: String },
    /// Hand `target` to the system opener.
    Open { target: String },
    /// Run `command` in a detached shell.
    Spawn { command: String },
}

/// The mathematical value of a [`LaunchEffect`].
pub enum LaunchEffectView {
    Nothing,
    ClipboardSet { id: Seq<char> },
    Copy { value: Seq<char>, title: Seq<char> },
    Focus { window: Seq<char> },
    Open { target: Seq<char> },
    Spawn { command: Seq<char> },
}

impl View for LaunchEffect {
    type V = LaunchEffectView;

    open spec fn view(&self) -> LaunchEffectView {
        match *self {
            LaunchEffect::Nothing => LaunchEffectView::Nothing,
            LaunchEffect::ClipboardSet { id } => LaunchEffectView::ClipboardSet { id: id@ },
            LaunchEffect::Copy { value, title } => LaunchEffectView::Copy {
                value: value@,
                title: title@,
            },
            LaunchEffect::Focus { window } => LaunchEffectView::Focus { window: window@ },
            LaunchEffect::Open { target } => LaunchEffectView::Open { target: target@ },
            LaunchEffect::Spawn { command } => LaunchEffectView::Spawn { command: command@ },
        }
    }
}

/// `command` without the placeholders of desktop entries.  Each placeholder
/// is removed wherever it occurs, one placeholder after the other in the
/// order `%f %F %u %U %d %D %n %N %i %c %k`.
pub open spec fn strip_placeholders(command: Seq<char>) -> Seq<char> {
    let e = Seq::<char>::empty();
    let s1 = replaced(command, "%f"@, e);
    let s2 = replaced(s1, "%F"@, e);
    let s3 = replaced(s2, "%u"@, e);
    let s4 = replaced(s3, "%U"@, e);
    let s5 = replaced(s4, "%d"@, e);
    let s6 = replaced(s5, "%D"@, e);
    let s7 = replaced(s6, "%n"@, e);
    let s8 = replaced(s7, "%N"@, e);
    let s9 = replaced(s8, "%i"@, e);
    let s10 = replaced(s9, "%c"@, e);
    replaced(s10, "%k"@, e)
}

/// Whether the action opens a path or a link.
pub open spec fn is_open_action(action: Seq<char>) -> bool {
    starts_with(action, "xdg-open "@) || starts_with(action, "OPEN_PATH:"@)
}

/// The key under which the history counts an action.  For an action that
/// opens a path or link it is the target, without the opening word and
/// without quotes around it; for a command it is the command without
/// placeholders.
pub open spec fn normalized_key(action: Seq<char>) -> Seq<char> {
    if starts_with(action, "xdg-open "@) {
        strip_trailing(strip_leading(strip_prefixes(action, "xdg-open "@), '"'), '"')
    } else if starts_with(action, "OPEN_PATH:"@) {
        action.skip("OPEN_PATH:"@.len() as int)
    } else {
        strip_placeholders(action)
    }
}

/// The title of the notification after a copy.
pub open spec fn copy_title(desktop_id: Option<Seq<char>>) -> Seq<char> {
    if desktop_id == Some("color"@) {
        "Color Copied"@
    } else if desktop_id == Some("calc"@) {
        "Result Copied"@
    } else {
        "Copied"@
    }
}

/// The shell command that starts `action` detached from the launcher,
/// inside the terminal `terminal_cmd` if `terminal` is set.
pub open spec fn shell_command(action: Seq<char>, terminal: bool, terminal_cmd: Seq<char>) -> Seq<
    char,
> {
    let cmd = trimmed(strip_placeholders(action));
    if terminal {
        "setsid "@ + terminal_cmd + " -e "@ + cmd + " >/dev/null 2>&1 &"@
    } else {
        "setsid "@ + cmd + " >/dev/null 2>&1 &"@
    }
}

/// Whether an action neither restores a clipboard entry nor copies a value,
/// and is not empty: only such an action is counted in the history.
pub open spec fn is_counted(action: Seq<char>) -> bool {
    action.len() > 0 && !starts_with(action, "CLIPBOARD_SET:"@) && !starts_with(action, "COPY:"@)
}

/// Whether a launch looks for a window of the application before it starts
/// anything: focusing must be switched on, and the candidate must have a
/// desktop identifier which is not that of a file, a link or a calculation.
pub open spec fn seeks_window(
    action: Seq<char>,
    desktop_id: Option<Seq<char>>,
    focus_on_launch: bool,
) -> bool {
    is_counted(action) && focus_on_launch && desktop_id is Some && desktop_id->0 != "file"@
        && desktop_id->0 != "web"@ && desktop_id->0 != "calc"@
}

/// What a launch does.
pub open spec fn launch_effect(
    action: Seq<char>,
    terminal: bool,
    desktop_id: Option<Seq<char>>,
    focus_on_launch: bool,
    terminal_cmd: Seq<char>,
    windows: Seq<WindowInfoView>,
) -> LaunchEffectView {
    if action.len() == 0 {
        LaunchEffectView::Nothing
    } else if starts_with(action, "CLIPBOARD_SET:"@) {
        LaunchEffectView::ClipboardSet { id: action.skip("CLIPBOARD_SET:"@.len() as int) }
    } else if starts_with(action, "COPY:"@) {
        LaunchEffectView::Copy {
            value: action.skip("COPY:"@.len() as int),
            title: copy_title(desktop_id),
        }
    } else if seeks_window(action, desktop_id, focus_on_launch) && first_match(
        windows,
        desktop_id->0,
    ) is Some {
        LaunchEffectView::Focus { window: windows[first_match(windows, desktop_id->0)->0].id }
    } else if is_open_action(action) {
        LaunchEffectView::Open { target: normalized_key(action) }
    } else {
        LaunchEffectView::Spawn { command: shell_command(action, terminal, terminal_cmd) }
    }
}

/// The history after a launch: a counted action has one more use under its
/// normalized key, and any other action leaves the history as it was.
pub open spec fn history_after_launch(h: Seq<(Seq<char>, u32)>, action: Seq<char>) -> Seq<
    (Seq<char>, u32),
> {
    if is_counted(action) {
        recorded(h, normalized_key(action))
    } else {
        h
    }
}

/// `command` without the placeholders of desktop entries.
pub fn remove_placeholders(command: &Vec<char>) -> (r: Vec<char>)
    ensures
        r@ == strip_placeholders(command@),
{
    let e: Vec<char> = Vec::new();
    assert(e@ =~= Seq::<char>::empty());
    let s1 = replace(command, &chars_of("%f"), &e);
    let s2 = replace(&s1, &chars_of("%F"), &e);
    let s3 = replace(&s2, &chars_of("%u"), &e);
    let s4 = replace(&s3, &chars_of("%U"), &e);
    let s5 = replace(&s4, &chars_of("%d"), &e);
    let s6 = replace(&s5, &chars_of("%D"), &e);
    let s7 = replace(&s6, &chars_of("%n"), &e);
    let s8 = replace(&s7, &chars_of("%N"), &e);
    let s9 = replace(&s8, &chars_of("%i"), &e);
    let s10 = replace(&s9, &chars_of("%c"), &e);
    replace(&s10, &chars_of("%k"), &e)
}

/// The key under which the history counts `action`.
pub fn action_key(action: &str) -> (key: String)
    ensures
        key@ == normalized_key(action@),
{
    let a = chars_of(action);
    let open_word = chars_of("xdg-open ");
    let path_word = chars_of("OPEN_PATH:");
    if has_prefix(&a, &open_word) {
        let rest = remove_prefixes(&a, &open_word);
        let rest = remove_leading(&rest, '"');
        let rest = remove_trailing(&rest, '"');
        string_of(&rest)
    } else if has_prefix(&a, &path_word) {
        let rest = slice(&a, path_word.len(), a.len());
        string_of(&rest)
    } else {
        string_of(&remove_placeholders(&a))
    }
}

/// Whether a launch of `action` needs the list of open windows.
pub fn wants_window_list(action: &str, desktop_id: Option<&str>, focus_on_launch: bool) -> (r: bool)
    ensures
        r == seeks_window(
            action@,
            match desktop_id {
                Some(d) => Some(d@),
                None => None,
            },
            focus_on_launch,
        ),
{
    let a = chars_of(action);
    if a.len() == 0 || has_prefix(&a, &chars_of("CLIPBOARD_SET:")) || has_prefix(
        &a,
        &chars_of("COPY:"),
    ) || !focus_on_launch {
        return false;
    }
    match desktop_id {
        Some(d) => !str_eq(d, "file") && !str_eq(d, "web") && !str_eq(d, "calc"),
        None => false,
    }
}

fn title_of_copy(desktop_id: Option<&str>) -> (r: String)
    ensures
        r@ == copy_title(
            match desktop_id {
                Some(d) => Some(d@),
                None => None,
            },
        ),
{
    match desktop_id {
        Some(d) => {
            if str_eq(d, "color") {
                string_of(&chars_of("Color Copied"))
            } else if str_eq(d, "calc") {
                string_of(&chars_of("Result Copied"))
            } else {
                string_of(&chars_of("Copied"))
            }
        },
        None => string_of(&chars_of("Copied")),
    }
}

fn command_line(action: &Vec<char>, terminal: bool, terminal_cmd: &str) -> (r: String)
    ensures
        r@ == shell_command(action@, terminal, terminal_cmd@),
{
    let cmd = trim(&remove_placeholders(action));
    let mut line = chars_of("setsid ");
    if terminal {
        append(&mut line, &chars_of(terminal_cmd));
        append(&mut line, &chars_of(" -e "));
    }
    append(&mut line, &cmd);
    append(&mut line, &chars_of(" >/dev/null 2>&1 &"));
    string_of(&line)
}

/// Resolves the launch of `action`.
///
/// Returns what the caller has to do, and records the use in `history`.
/// `windows` is the list of open windows; it is read only where
/// [`wants_window_list`] holds, so a caller may pass an empty list where it
/// does not.
pub fn launch_app(
    action: &str,
    terminal: bool,
    history: &mut History,
    desktop_id: Option<&str>,
    focus_on_launch: bool,
    terminal_cmd: &str,
    windows: &Vec<WindowInfo>,
) -> (effect: LaunchEffect)
    requires
        old(history).wf(),
    ensures
        final(history).wf(),
        effect@ == launch_effect(
            action@,
            terminal,
            match desktop_id {
                Some(d) => Some(d@),
                None => None,
            },
            focus_on_launch,
            terminal_cmd@,
            window_views(windows@),
        ),
        final(history)@ == history_after_launch(old(history)@, action@),
{
    let a = chars_of(action);
    if a.len() == 0 {
        return LaunchEffect::Nothing;
    }
    let clip_word = chars_of("CLIPBOARD_SET:");
    if has_prefix(&a, &clip_word) {
        let id = slice(&a, clip_word.len(), a.len());
        return LaunchEffect::ClipboardSet { id: string_of(&id) };
    }
    let copy_word = chars_of("COPY:");
    if has_prefix(&a, &copy_word) {
        let value = slice(&a, copy_word.len(), a.len());
        return LaunchEffect::Copy { value: string_of(&value), title: title_of_copy(desktop_id) };
    }
    let key = action_key(action);
    history.record(key.as_str());
    if wants_window_list(action, desktop_id, focus_on_launch) {
        match desktop_id {
            Some(d) => {
                match find_window(windows, d) {
                    Some(i) => {
                        return LaunchEffect::Focus {
                            window: string_of(&chars_of(windows[i].id.as_str())),
                        };
                    },
                    None => {},
                }
            },
            None => {},
        }
    }
    if has_prefix(&a, &chars_of("xdg-open ")) || has_prefix(&a, &chars_of("OPEN_PATH:")) {
        return LaunchEffect::Open { target: key };
    }
    LaunchEffect::Spawn { command: command_line(&a, terminal, terminal_cmd) }
}

/// Two actions with the same normalized key share one counter: launching
/// both raises that counter twice and adds at most one entry.  Where the
/// key was not counted before, the history has one entry more, with the
/// count 2.
pub proof fn lemma_placeholders_share_a_counter(
    h: Seq<(Seq<char>, u32)>,
    first: Seq<char>,
    second: Seq<char>,
)
    requires
        crate::history::distinct_keys(h),
        is_counted(first),
        is_counted(second),
        normalized_key(first) == normalized_key(second),
    ensures
        ({
            let key = normalized_key(first);
            let after = history_after_launch(history_after_launch(h, first), second);
            &&& crate::history::distinct_keys(after)
            &&& crate::history::count_in(after, key) == crate::history::bumped(
                crate::history::bumped(crate::history::count_in(h, key)),
            )
            &&& forall|other: Seq<char>|
                other != key ==> crate::history::count_in(after, other) == crate::history::count_in(
                    h,
                    other,
                )
            &&& !crate::history::has_key(h, key) ==> after.len() == h.len() + 1
                && crate::history::count_in(after, key) == 2
            &&& crate::history::has_key(h, key) ==> after.len() == h.len()
        }),
{
    let key = normalized_key(first);
    crate::history::lemma_recorded(h, key);
    let mid = recorded(h, key);
    if !crate::history::has_key(h, key) {
        assert(mid[h.len() as int].0 == key);
    } else {
        assert(mid[crate::history::index_of_key(h, key)].0 == key);
    }
    crate::history::lemma_recorded(mid, key);
}


/// A launch never lowers a count, and never takes an entry away.
pub proof fn lemma_counts_never_fall(h: Seq<(Seq<char>, u32)>, action: Seq<char>, key: Seq<char>)
    requires
        crate::history::distinct_keys(h),
    ensures
        crate::history::count_in(history_after_launch(h, action), key) >= crate::history::count_in(
            h,
            key,
        ),
        history_after_launch(h, action).len() >= h.len(),
        crate::history::distinct_keys(history_after_launch(h, action)),
{
    if is_counted(action) {
        crate::history::lemma_recorded(h, normalized_key(action));
    }
}

} // verus!
