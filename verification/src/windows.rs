//! Open windows, as the desktop environment reports them.

use vstd::prelude::*;
use crate::text::{append, chars_of, contains, contains_sub, copy_str, decimal, lower, lowercase,
    remove_suffixes, same, string_of, strip_suffixes, to_decimal};

verus! {

/// One open window.
#[derive(Clone, Debug)]
pub struct WindowInfo {
    pub id: String,
    pub title: String,
    pub app_id: String,
}

/// The mathematical value of a [`WindowInfo`].
pub struct WindowInfoView {
    pub id: Seq<char>,
    pub title: Seq<char>,
    pub app_id: Seq<char>,
}

impl View for WindowInfo {
    type V = WindowInfoView;

    open spec fn view(&self) -> WindowInfoView {
        WindowInfoView { id: self.id@, title: self.title@, app_id: self.app_id@ }
    }
}

/// The views of a list of windows.
pub open spec fn window_views(windows: Seq<WindowInfo>) -> Seq<WindowInfoView> {
    windows.map_values(|w: WindowInfo| w@)
}

/// Whether the window `w` belongs to the application with the desktop
/// identifier `desktop_id`.  Both are compared in lower case.  The window
/// matches if its application identifier is the desktop identifier, with or
/// without the ending `.desktop`; if its title contains the identifier
/// without that ending; or if that identifier contains the window's
/// application identifier, which must then not be empty.
pub open spec fn window_matches(w: WindowInfoView, desktop_id: Seq<char>) -> bool {
    let id_lower = lowercase(desktop_id);
    let id_base = strip_suffixes(id_lower, ".desktop"@);
    let app_id = lowercase(w.app_id);
    let title = lowercase(w.title);
    app_id == id_base || app_id == id_lower || contains_sub(title, id_base) || (app_id.len() > 0
        && contains_sub(id_base, app_id))
}

/// The index of the first window at or after `from` that matches.
pub open spec fn first_match_from(
    windows: Seq<WindowInfoView>,
    desktop_id: Seq<char>,
    from: int,
) -> Option<int>
    decreases windows.len() - from + 1,
{
    if from < 0 || from >= windows.len() {
        None
    } else if window_matches(windows[from], desktop_id) {
        Some(from)
    } else {
        first_match_from(windows, desktop_id, from + 1)
    }
}

/// The index of the first window that matches.
pub open spec fn first_match(windows: Seq<WindowInfoView>, desktop_id: Seq<char>) -> Option<int> {
    first_match_from(windows, desktop_id, 0)
}

/// `first_match_from` finds the least matching index, if there is one.
pub proof fn lemma_first_match(windows: Seq<WindowInfoView>, desktop_id: Seq<char>, from: int)
    requires
        0 <= from,
    ensures
        match first_match_from(windows, desktop_id, from) {
            Some(i) => from <= i < windows.len() && window_matches(windows[i], desktop_id)
                && forall|j: int| from <= j < i ==> !window_matches(windows[j], desktop_id),
            None => forall|j: int|
                from <= j < windows.len() ==> !window_matches(windows[j], desktop_id),
        },
    decreases windows.len() - from + 1,
{
    if from < windows.len() && !window_matches(windows[from], desktop_id) {
        lemma_first_match(windows, desktop_id, from + 1);
    }
}

/// The first window of `windows` that belongs to the application
/// `desktop_id`.
pub fn find_window(windows: &Vec<WindowInfo>, desktop_id: &str) -> (r: Option<usize>)
    ensures
        match r {
            Some(i) => first_match(window_views(windows@), desktop_id@) == Some(i as int) && i
                < windows@.len(),
            None => first_match(window_views(windows@), desktop_id@) is None,
        },
{
    let id_lower = lower(&chars_of(desktop_id));
    let id_base = remove_suffixes(&id_lower, &chars_of(".desktop"));
    let ghost ws = window_views(windows@);
    let mut i: usize = 0;
    while i < windows.len()
        invariant
            i <= windows.len(),
            ws == window_views(windows@),
            id_lower@ == lowercase(desktop_id@),
            id_base@ == strip_suffixes(id_lower@, ".desktop"@),
            first_match(ws, desktop_id@) == first_match_from(ws, desktop_id@, i as int),
        decreases windows.len() - i,
    {
        let app_id = lower(&chars_of(windows[i].app_id.as_str()));
        let title = lower(&chars_of(windows[i].title.as_str()));
        let hit = same(&app_id, &id_base) || same(&app_id, &id_lower) || contains(&title, &id_base)
            || (app_id.len() > 0 && contains(&id_base, &app_id));
        assert(hit == window_matches(ws[i as int], desktop_id@));
        if hit {
            return Some(i);
        }
        i += 1;
    }
    None
}


/// The views of a list of strings.
pub open spec fn strs(words: Seq<String>) -> Seq<Seq<char>> {
    words.map_values(|w: String| w@)
}

/// What a desktop environment offers the launcher.  Each capability is a
/// command line for the caller to run; an empty command line means that the
/// environment has no such command and nothing is run.
pub trait WindowManager {
    /// The command that prints the open windows.
    spec fn list_argv(&self) -> Seq<Seq<char>>;

    /// The command that focuses the window `id`.
    spec fn focus_argv(&self, id: Seq<char>) -> Seq<Seq<char>>;

    /// The command that ends the session of `user`.
    spec fn logout_argv(&self, user: Option<Seq<char>>) -> Seq<Seq<char>>;

    /// The command that centers the launcher.
    spec fn center_argv(&self) -> Seq<Seq<char>>;

    fn get_window_list(&self) -> (argv: Vec<String>)
        ensures
            strs(argv@) == self.list_argv(),
    ;

    fn focus_window(&self, id: &str) -> (argv: Vec<String>)
        ensures
            strs(argv@) == self.focus_argv(id@),
    ;

    fn logout(&self, user: Option<&str>) -> (argv: Vec<String>)
        ensures
            strs(argv@) == self.logout_argv(
                match user {
                    Some(u) => Some(u@),
                    None => None,
                },
            ),
    ;

    fn center_cursor_or_window(&self) -> (argv: Vec<String>)
        ensures
            strs(argv@) == self.center_argv(),
    ;
}

fn no_command() -> (argv: Vec<String>)
    ensures
        strs(argv@) == Seq::<Seq<char>>::empty(),
{
    let argv: Vec<String> = Vec::new();
    assert(strs(argv@) =~= Seq::<Seq<char>>::empty());
    argv
}

fn command3(a: &str, b: &str, c: &str) -> (argv: Vec<String>)
    ensures
        strs(argv@) == seq![a@, b@, c@],
{
    let mut argv: Vec<String> = Vec::new();
    argv.push(copy_str(a));
    argv.push(copy_str(b));
    argv.push(copy_str(c));
    assert(strs(argv@) =~= seq![a@, b@, c@]);
    argv
}

fn command4(a: &str, b: &str, c: &str, d: &str) -> (argv: Vec<String>)
    ensures
        strs(argv@) == seq![a@, b@, c@, d@],
{
    let mut argv: Vec<String> = Vec::new();
    argv.push(copy_str(a));
    argv.push(copy_str(b));
    argv.push(copy_str(c));
    argv.push(copy_str(d));
    assert(strs(argv@) =~= seq![a@, b@, c@, d@]);
    argv
}

/// A desktop environment of which nothing is known: it lists no windows and
/// focuses none.
pub struct Generic;

impl WindowManager for Generic {
    open spec fn list_argv(&self) -> Seq<Seq<char>> {
        Seq::empty()
    }

    open spec fn focus_argv(&self, id: Seq<char>) -> Seq<Seq<char>> {
        Seq::empty()
    }

    open spec fn logout_argv(&self, user: Option<Seq<char>>) -> Seq<Seq<char>> {
        match user {
            Some(u) => seq!["loginctl"@, "terminate-user"@, u],
            None => Seq::empty(),
        }
    }

    open spec fn center_argv(&self) -> Seq<Seq<char>> {
        Seq::empty()
    }

    fn get_window_list(&self) -> (argv: Vec<String>) {
        no_command()
    }

    fn focus_window(&self, id: &str) -> (argv: Vec<String>) {
        no_command()
    }

    fn logout(&self, user: Option<&str>) -> (argv: Vec<String>) {
        match user {
            Some(u) => command3("loginctl", "terminate-user", u),
            None => no_command(),
        }
    }

    fn center_cursor_or_window(&self) -> (argv: Vec<String>) {
        no_command()
    }
}

/// The Hyprland compositor.
pub struct Hyprland;

impl WindowManager for Hyprland {
    open spec fn list_argv(&self) -> Seq<Seq<char>> {
        seq!["hyprctl"@, "clients"@, "-j"@]
    }

    open spec fn focus_argv(&self, id: Seq<char>) -> Seq<Seq<char>> {
        seq!["hyprctl"@, "dispatch"@, "focuswindow"@, "address:"@ + id]
    }

    open spec fn logout_argv(&self, user: Option<Seq<char>>) -> Seq<Seq<char>> {
        seq!["hyprctl"@, "dispatch"@, "exit"@]
    }

    open spec fn center_argv(&self) -> Seq<Seq<char>> {
        Seq::empty()
    }

    fn get_window_list(&self) -> (argv: Vec<String>) {
        command3("hyprctl", "clients", "-j")
    }

    fn focus_window(&self, id: &str) -> (argv: Vec<String>) {
        let mut target = chars_of("address:");
        append(&mut target, &chars_of(id));
        let target = string_of(&target);
        command4("hyprctl", "dispatch", "focuswindow", target.as_str())
    }

    fn logout(&self, user: Option<&str>) -> (argv: Vec<String>) {
        command3("hyprctl", "dispatch", "exit")
    }

    fn center_cursor_or_window(&self) -> (argv: Vec<String>) {
        no_command()
    }
}

/// The niri compositor.
pub struct Niri;

impl WindowManager for Niri {
    open spec fn list_argv(&self) -> Seq<Seq<char>> {
        seq!["niri"@, "msg"@, "--json"@, "windows"@]
    }

    open spec fn focus_argv(&self, id: Seq<char>) -> Seq<Seq<char>> {
        seq!["niri"@, "msg"@, "action"@, "focus-window"@, "--id"@, id]
    }

    open spec fn logout_argv(&self, user: Option<Seq<char>>) -> Seq<Seq<char>> {
        seq!["niri"@, "msg"@, "action"@, "quit"@]
    }

    open spec fn center_argv(&self) -> Seq<Seq<char>> {
        seq!["niri"@, "msg"@, "action"@, "center-column"@]
    }

    fn get_window_list(&self) -> (argv: Vec<String>) {
        command4("niri", "msg", "--json", "windows")
    }

    fn focus_window(&self, id: &str) -> (argv: Vec<String>) {
        let mut argv = command4("niri", "msg", "action", "focus-window");
        let ghost before = argv@;
        argv.push(copy_str("--id"));
        argv.push(copy_str(id));
        assert(strs(argv@) =~= strs(before).push("--id"@).push(id@));
        assert(strs(argv@) =~= self.focus_argv(id@));
        argv
    }

    fn logout(&self, user: Option<&str>) -> (argv: Vec<String>) {
        command4("niri", "msg", "action", "quit")
    }

    fn center_cursor_or_window(&self) -> (argv: Vec<String>) {
        command4("niri", "msg", "action", "center-column")
    }
}

/// The desktop environments that the launcher knows.
#[derive(Clone, Copy, PartialEq, Eq, Structural, Debug)]
pub enum Desktop {
    Niri,
    Hyprland,
    Generic,
}

/// The desktop environment that the session variables name: niri if the
/// current desktop or the session names it, else Hyprland if the current
/// desktop names it or its instance signature is set, else the generic one.
/// Names are compared in lower case.
pub open spec fn detected(
    current_desktop: Seq<char>,
    session: Seq<char>,
    hyprland_signature: bool,
) -> Desktop {
    if contains_sub(lowercase(current_desktop), "niri"@) || contains_sub(
        lowercase(session),
        "niri"@,
    ) {
        Desktop::Niri
    } else if contains_sub(lowercase(current_desktop), "hyprland"@) || hyprland_signature {
        Desktop::Hyprland
    } else {
        Desktop::Generic
    }
}

/// Picks the desktop environment from the values of `XDG_CURRENT_DESKTOP`
/// and `DESKTOP_SESSION` (each empty if unset) and from whether
/// `HYPRLAND_INSTANCE_SIGNATURE` is set.
pub fn detect(current_desktop: &str, session: &str, hyprland_signature: bool) -> (d: Desktop)
    ensures
        d == detected(current_desktop@, session@, hyprland_signature),
{
    let current = lower(&chars_of(current_desktop));
    let session = lower(&chars_of(session));
    let niri = chars_of("niri");
    if contains(&current, &niri) || contains(&session, &niri) {
        Desktop::Niri
    } else if contains(&current, &chars_of("hyprland")) || hyprland_signature {
        Desktop::Hyprland
    } else {
        Desktop::Generic
    }
}

impl WindowManager for Desktop {
    open spec fn list_argv(&self) -> Seq<Seq<char>> {
        match *self {
            Desktop::Niri => Niri.list_argv(),
            Desktop::Hyprland => Hyprland.list_argv(),
            Desktop::Generic => Generic.list_argv(),
        }
    }

    open spec fn focus_argv(&self, id: Seq<char>) -> Seq<Seq<char>> {
        match *self {
            Desktop::Niri => Niri.focus_argv(id),
            Desktop::Hyprland => Hyprland.focus_argv(id),
            Desktop::Generic => Generic.focus_argv(id),
        }
    }

    open spec fn logout_argv(&self, user: Option<Seq<char>>) -> Seq<Seq<char>> {
        match *self {
            Desktop::Niri => Niri.logout_argv(user),
            Desktop::Hyprland => Hyprland.logout_argv(user),
            Desktop::Generic => Generic.logout_argv(user),
        }
    }

    open spec fn center_argv(&self) -> Seq<Seq<char>> {
        match *self {
            Desktop::Niri => Niri.center_argv(),
            Desktop::Hyprland => Hyprland.center_argv(),
            Desktop::Generic => Generic.center_argv(),
        }
    }

    fn get_window_list(&self) -> (argv: Vec<String>) {
        match self {
            Desktop::Niri => Niri.get_window_list(),
            Desktop::Hyprland => Hyprland.get_window_list(),
            Desktop::Generic => Generic.get_window_list(),
        }
    }

    fn focus_window(&self, id: &str) -> (argv: Vec<String>) {
        match self {
            Desktop::Niri => Niri.focus_window(id),
            Desktop::Hyprland => Hyprland.focus_window(id),
            Desktop::Generic => Generic.focus_window(id),
        }
    }

    fn logout(&self, user: Option<&str>) -> (argv: Vec<String>) {
        match self {
            Desktop::Niri => Niri.logout(user),
            Desktop::Hyprland => Hyprland.logout(user),
            Desktop::Generic => Generic.logout(user),
        }
    }

    fn center_cursor_or_window(&self) -> (argv: Vec<String>) {
        match self {
            Desktop::Niri => Niri.center_cursor_or_window(),
            Desktop::Hyprland => Hyprland.center_cursor_or_window(),
            Desktop::Generic => Generic.center_cursor_or_window(),
        }
    }
}


/// A text that may be missing: the text, or the empty text.
pub open spec fn or_empty(t: Option<Seq<char>>) -> Seq<char> {
    match t {
        Some(s) => s,
        None => Seq::empty(),
    }
}

fn text_or_empty(t: Option<&str>) -> (r: String)
    ensures
        r@ == or_empty(
            match t {
                Some(s) => Some(s@),
                None => None,
            },
        ),
{
    match t {
        Some(s) => copy_str(s),
        None => String::new(),
    }
}

impl Hyprland {
    /// The window that one record of Hyprland's list stands for: its
    /// address is the identifier, its class the application.  A field that
    /// is missing or no text counts as empty.
    pub fn window_from(address: Option<&str>, title: Option<&str>, class: Option<&str>) -> (w:
        WindowInfo)
        ensures
            w@ == (WindowInfoView {
                id: or_empty(
                    match address {
                        Some(s) => Some(s@),
                        None => None,
                    },
                ),
                title: or_empty(
                    match title {
                        Some(s) => Some(s@),
                        None => None,
                    },
                ),
                app_id: or_empty(
                    match class {
                        Some(s) => Some(s@),
                        None => None,
                    },
                ),
            }),
    {
        WindowInfo {
            id: text_or_empty(address),
            title: text_or_empty(title),
            app_id: text_or_empty(class),
        }
    }
}

impl Niri {
    /// The window that one record of niri's list stands for.  Its
    /// identifier is a number, shown in decimal; a record without one
    /// stands for no window.  A title or application that is missing or no
    /// text counts as empty.
    pub fn window_from(id: Option<u64>, title: Option<&str>, app_id: Option<&str>) -> (w: Option<
        WindowInfo,
    >)
        ensures
            match w {
                Some(info) => id is Some && info@ == (WindowInfoView {
                    id: decimal(id->0 as nat),
                    title: or_empty(
                        match title {
                            Some(s) => Some(s@),
                            None => None,
                        },
                    ),
                    app_id: or_empty(
                        match app_id {
                            Some(s) => Some(s@),
                            None => None,
                        },
                    ),
                }),
                None => id is None,
            },
    {
        match id {
            Some(n) => Some(
                WindowInfo {
                    id: string_of(&to_decimal(n)),
                    title: text_or_empty(title),
                    app_id: text_or_empty(app_id),
                },
            ),
            None => None,
        }
    }
}


/// A value of a JSON document, as `serde_json` holds it.
#[verifier::external_type_specification]
#[verifier::external_body]
pub struct ExJsonValue(serde_json::Value);

/// Calls `serde_json::from_slice` for a `serde_json::Value`: the document
/// that the bytes hold, or `None` where they hold no JSON document.
#[verifier::external_body]
fn json_document(bytes: &[u8]) -> Option<serde_json::Value> {
    match serde_json::from_slice::<serde_json::Value>(bytes) {
        Ok(v) => Some(v),
        Err(_) => None,
    }
}

/// Calls `serde_json::Value::as_array`: the elements of an array, or
/// `None` for a value that is no array.
#[verifier::external_body]
fn json_array(v: &serde_json::Value) -> Option<&Vec<serde_json::Value>> {
    v.as_array()
}

/// Calls `serde_json::Value::get` with a key: the member of an object
/// under that key, or `None` where there is none.
#[verifier::external_body]
fn json_member<'a>(v: &'a serde_json::Value, key: &str) -> Option<&'a serde_json::Value> {
    v.get(key)
}

/// Calls `serde_json::Value::as_str`: the text of a string, or `None` for
/// a value that is no string.
#[verifier::external_body]
fn json_text(v: &serde_json::Value) -> Option<&str> {
    v.as_str()
}

/// Calls `serde_json::Value::as_u64`: the number, or `None` for a value
/// that is no number from 0 to the largest `u64`.
#[verifier::external_body]
fn json_number(v: &serde_json::Value) -> Option<u64> {
    v.as_u64()
}

fn member_text<'a>(record: &'a serde_json::Value, key: &str) -> Option<&'a str> {
    match json_member(record, key) {
        Some(field) => json_text(field),
        None => None,
    }
}

/// Whether the identifier of a window is a number in decimal.
pub open spec fn has_numeric_id(w: WindowInfoView) -> bool {
    exists|n: u64| w.id == decimal(n as nat)
}

impl Hyprland {
    /// The windows in what `hyprctl clients -j` printed: the output is
    /// decoded as JSON, each element of the array that it holds is read as
    /// a [`HyprlandClient`], and the windows are those of
    /// [`Hyprland::windows_from_clients`].  Output that is no JSON array
    /// holds no windows.  What the decoding gives is not stated here.
    pub fn windows_from_json(output: &[u8]) -> (r: Vec<WindowInfo>) {
        let mut clients: Vec<HyprlandClient> = Vec::new();
        let document = match json_document(output) {
            Some(d) => d,
            None => {
                return Hyprland::windows_from_clients(&clients);
            },
        };
        let records = match json_array(&document) {
            Some(records) => records,
            None => {
                return Hyprland::windows_from_clients(&clients);
            },
        };
        let mut i: usize = 0;
        while i < records.len()
            invariant
                i <= records.len(),
            decreases records.len() - i,
        {
            let record = &records[i];
            clients.push(
                HyprlandClient {
                    address: owned(member_text(record, "address")),
                    title: owned(member_text(record, "title")),
                    class: owned(member_text(record, "class")),
                },
            );
            i += 1;
        }
        Hyprland::windows_from_clients(&clients)
    }
}

impl Niri {
    /// The windows in what `niri msg --json windows` printed: the output is
    /// decoded as JSON, each element of the array that it holds is read as
    /// a [`NiriWindow`], and the windows are those of
    /// [`Niri::windows_from_records`].  Output that is no JSON array holds
    /// no windows.  What the decoding gives is not stated here; whatever it
    /// gives, every window has a number for its identifier.
    pub fn windows_from_json(output: &[u8]) -> (r: Vec<WindowInfo>)
        ensures
            forall|i: int| 0 <= i < r@.len() ==> has_numeric_id(#[trigger] r@[i]@),
    {
        let mut found: Vec<NiriWindow> = Vec::new();
        let document = match json_document(output) {
            Some(d) => d,
            None => {
                return Niri::windows_from_records(&found);
            },
        };
        let records = match json_array(&document) {
            Some(records) => records,
            None => {
                return Niri::windows_from_records(&found);
            },
        };
        let mut i: usize = 0;
        while i < records.len()
            invariant
                i <= records.len(),
            decreases records.len() - i,
        {
            let record = &records[i];
            let id = match json_member(record, "id") {
                Some(field) => json_number(field),
                None => None,
            };
            found.push(
                NiriWindow {
                    id,
                    title: owned(member_text(record, "title")),
                    app_id: owned(member_text(record, "app_id")),
                },
            );
            i += 1;
        }
        Niri::windows_from_records(&found)
    }
}

impl Desktop {
    /// The windows in what the command of [`WindowManager::get_window_list`]
    /// printed.  The generic environment lists none.
    pub fn windows_from_output(&self, output: &[u8]) -> (r: Vec<WindowInfo>)
        ensures
            *self == Desktop::Generic ==> r@.len() == 0,
            *self == Desktop::Niri ==> forall|i: int|
                0 <= i < r@.len() ==> has_numeric_id(#[trigger] r@[i]@),
    {
        match self {
            Desktop::Niri => Niri::windows_from_json(output),
            Desktop::Hyprland => Hyprland::windows_from_json(output),
            Desktop::Generic => Vec::new(),
        }
    }
}


/// One element of the window list of Hyprland, as far as the launcher
/// reads it: its members `address`, `title` and `class`, each `None` where
/// the element has no such member or the member is no text.
#[derive(Clone, Debug)]
pub struct HyprlandClient {
    pub address: Option<String>,
    pub title: Option<String>,
    pub class: Option<String>,
}

/// The mathematical value of a [`HyprlandClient`].
pub struct HyprlandClientView {
    pub address: Option<Seq<char>>,
    pub title: Option<Seq<char>>,
    pub class: Option<Seq<char>>,
}

impl View for HyprlandClient {
    type V = HyprlandClientView;

    open spec fn view(&self) -> HyprlandClientView {
        HyprlandClientView {
            address: crate::config::text_view(self.address),
            title: crate::config::text_view(self.title),
            class: crate::config::text_view(self.class),
        }
    }
}

/// The views of a list of elements of Hyprland's window list.
pub open spec fn client_views(clients: Seq<HyprlandClient>) -> Seq<HyprlandClientView> {
    clients.map_values(|c: HyprlandClient| c@)
}

/// The window that an element of Hyprland's list stands for: its address
/// is the identifier, its class the application, and a member that is
/// missing counts as empty.
pub open spec fn hyprland_window(c: HyprlandClientView) -> WindowInfoView {
    WindowInfoView { id: or_empty(c.address), title: or_empty(c.title), app_id: or_empty(c.class) }
}

/// The windows of Hyprland's list: one for each element, in its order.
pub open spec fn hyprland_windows(clients: Seq<HyprlandClientView>) -> Seq<WindowInfoView> {
    Seq::new(clients.len(), |i: int| hyprland_window(clients[i]))
}

/// One element of the window list of niri, as far as the launcher reads
/// it: its members `id`, `title` and `app_id`, each `None` where the
/// element has no such member or the member is of another kind.
#[derive(Clone, Debug)]
pub struct NiriWindow {
    pub id: Option<u64>,
    pub title: Option<String>,
    pub app_id: Option<String>,
}

/// The mathematical value of a [`NiriWindow`].
pub struct NiriWindowView {
    pub id: Option<u64>,
    pub title: Option<Seq<char>>,
    pub app_id: Option<Seq<char>>,
}

impl View for NiriWindow {
    type V = NiriWindowView;

    open spec fn view(&self) -> NiriWindowView {
        NiriWindowView {
            id: self.id,
            title: crate::config::text_view(self.title),
            app_id: crate::config::text_view(self.app_id),
        }
    }
}

/// The views of a list of elements of niri's window list.
pub open spec fn record_views(records: Seq<NiriWindow>) -> Seq<NiriWindowView> {
    records.map_values(|w: NiriWindow| w@)
}

/// The window that an element of niri's list stands for, if it stands for
/// one: its identifier is its number in decimal, and an element without a
/// number stands for no window.
pub open spec fn niri_window(w: NiriWindowView) -> Option<WindowInfoView> {
    match w.id {
        Some(n) => Some(
            WindowInfoView {
                id: decimal(n as nat),
                title: or_empty(w.title),
                app_id: or_empty(w.app_id),
            },
        ),
        None => None,
    }
}

/// The windows of the first `n` elements of niri's list.
pub open spec fn niri_windows_upto(records: Seq<NiriWindowView>, n: nat) -> Seq<WindowInfoView>
    decreases n,
{
    if n == 0 {
        Seq::empty()
    } else {
        let before = niri_windows_upto(records, (n - 1) as nat);
        match niri_window(records[n - 1]) {
            Some(w) => before.push(w),
            None => before,
        }
    }
}

/// The windows of niri's list: one for each element that has a number, in
/// the order of the list.
pub open spec fn niri_windows(records: Seq<NiriWindowView>) -> Seq<WindowInfoView> {
    niri_windows_upto(records, records.len())
}

/// Every window of niri's list has a number in decimal for its identifier.
pub proof fn lemma_niri_ids_are_numbers(records: Seq<NiriWindowView>, n: nat)
    ensures
        forall|i: int|
            0 <= i < niri_windows_upto(records, n).len() ==> has_numeric_id(
                #[trigger] niri_windows_upto(records, n)[i],
            ),
    decreases n,
{
    if n > 0 {
        lemma_niri_ids_are_numbers(records, (n - 1) as nat);
        let before = niri_windows_upto(records, (n - 1) as nat);
        match niri_window(records[n - 1]) {
            Some(w) => {
                assert(w.id == decimal(records[n - 1].id->0 as nat));
                assert(has_numeric_id(w));
                assert forall|i: int| 0 <= i < before.push(w).len() implies has_numeric_id(
                    #[trigger] before.push(w)[i],
                ) by {
                    if i < before.len() {
                        assert(before.push(w)[i] == before[i]);
                    }
                }
            },
            None => {},
        }
    }
}

fn owned(text: Option<&str>) -> (r: Option<String>)
    ensures
        crate::config::text_view(r) == (match text {
            Some(t) => Some(t@),
            None => None,
        }),
{
    match text {
        Some(t) => Some(copy_str(t)),
        None => None,
    }
}

fn borrowed(text: &Option<String>) -> (r: Option<&str>)
    ensures
        (match r {
            Some(t) => Some(t@),
            None => None,
        }) == crate::config::text_view(*text),
{
    match text {
        Some(t) => Some(t.as_str()),
        None => None,
    }
}

impl Hyprland {
    /// The windows of Hyprland's list.
    pub fn windows_from_clients(clients: &Vec<HyprlandClient>) -> (r: Vec<WindowInfo>)
        ensures
            window_views(r@) == hyprland_windows(client_views(clients@)),
    {
        let mut list: Vec<WindowInfo> = Vec::new();
        let mut i: usize = 0;
        while i < clients.len()
            invariant
                i <= clients.len(),
                list@.len() == i,
                forall|k: int|
                    0 <= k < i ==> (#[trigger] list@[k])@ == hyprland_window(clients@[k]@),
            decreases clients.len() - i,
        {
            let c = &clients[i];
            list.push(
                Hyprland::window_from(borrowed(&c.address), borrowed(&c.title), borrowed(&c.class)),
            );
            i += 1;
        }
        assert(window_views(list@) =~= hyprland_windows(client_views(clients@)));
        list
    }
}

impl Niri {
    /// The windows of niri's list.
    pub fn windows_from_records(records: &Vec<NiriWindow>) -> (r: Vec<WindowInfo>)
        ensures
            window_views(r@) == niri_windows(record_views(records@)),
            forall|i: int| 0 <= i < r@.len() ==> has_numeric_id(#[trigger] r@[i]@),
    {
        let ghost rv = record_views(records@);
        let mut list: Vec<WindowInfo> = Vec::new();
        let mut i: usize = 0;
        assert(window_views(list@) =~= niri_windows_upto(rv, 0));
        while i < records.len()
            invariant
                i <= records.len(),
                rv == record_views(records@),
                window_views(list@) == niri_windows_upto(rv, i as nat),
            decreases records.len() - i,
        {
            let w = &records[i];
            assert(rv[i as int] == w@);
            let ghost before = list@;
            match Niri::window_from(w.id, borrowed(&w.title), borrowed(&w.app_id)) {
                Some(info) => {
                    list.push(info);
                    assert(window_views(list@) =~= window_views(before).push(info@));
                },
                None => {},
            }
            i += 1;
        }
        proof {
            lemma_niri_ids_are_numbers(rv, records@.len());
            assert forall|k: int| 0 <= k < list@.len() implies has_numeric_id(
                #[trigger] list@[k]@,
            ) by {
                assert(window_views(list@)[k] == list@[k]@);
            }
        }
        list
    }
}

} // verus!
