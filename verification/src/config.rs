//! The launcher's settings and saved state, as plain data.

use vstd::prelude::*;
use crate::history::History;

verus! {

/// What is kept from one run of the launcher to the next.
#[derive(Clone, Debug)]
pub struct WindowState {
    pub width: i32,
    pub height: i32,
    pub x: i32,
    pub y: i32,
    pub history: History,
    pub show_hidden: bool,
    pub show_hotkeys: bool,
}

/// The value of a switch that is on unless it was switched off.
pub fn default_true() -> (r: bool)
    ensures
        r,
{
    true
}

impl Default for WindowState {
    /// The state of a first run: a window of 600 by 450 at no fixed place,
    /// an empty history, hidden applications hidden, and the hotkey help
    /// shown.
    fn default() -> (s: WindowState)
        ensures
            s.width == 600,
            s.height == 450,
            s.x == -1,
            s.y == -1,
            s.history@.len() == 0,
            s.history.wf(),
            !s.show_hidden,
            s.show_hotkeys,
    {
        WindowState {
            width: 600,
            height: 450,
            x: -1,
            y: -1,
            history: History::new(),
            show_hidden: false,
            show_hotkeys: default_true(),
        }
    }
}

/// What the user has changed of one application.  A field that is `None`
/// leaves what the application registry says.
#[derive(Clone, Debug)]
pub struct CustomApp {
    pub name: Option<String>,
    pub icon: Option<String>,
    pub system_icon: Option<String>,
    pub hidden: Option<bool>,
}

/// The mathematical value of a [`CustomApp`].
pub struct CustomAppView {
    pub name: Option<Seq<char>>,
    pub icon: Option<Seq<char>>,
    pub system_icon: Option<Seq<char>>,
    pub hidden: Option<bool>,
}

/// The view of an optional string.
pub open spec fn text_view(s: Option<String>) -> Option<Seq<char>> {
    match s {
        Some(t) => Some(t@),
        None => None,
    }
}

impl View for CustomApp {
    type V = CustomAppView;

    open spec fn view(&self) -> CustomAppView {
        CustomAppView {
            name: text_view(self.name),
            icon: text_view(self.icon),
            system_icon: text_view(self.system_icon),
            hidden: self.hidden,
        }
    }
}

impl Default for CustomApp {
    /// The record that changes nothing.
    fn default() -> (c: CustomApp)
        ensures
            c@ == (CustomAppView { name: None, icon: None, system_icon: None, hidden: None }),
    {
        CustomApp { name: None, icon: None, system_icon: None, hidden: None }
    }
}

/// One button of the power menu: its glyph, the command it runs and the
/// style class that names it.
#[derive(Clone, Debug)]
pub struct PowerOption {
    pub icon: String,
    pub command: String,
    pub class: String,
}

/// The mathematical value of a [`PowerOption`].
pub struct PowerOptionView {
    pub icon: Seq<char>,
    pub command: Seq<char>,
    pub class: Seq<char>,
}

impl View for PowerOption {
    type V = PowerOptionView;

    open spec fn view(&self) -> PowerOptionView {
        PowerOptionView { icon: self.icon@, command: self.command@, class: self.class@ }
    }
}

/// The views of a list of power options.
pub open spec fn option_views(options: Seq<PowerOption>) -> Seq<PowerOptionView> {
    options.map_values(|o: PowerOption| o@)
}


/// The terminals that the launcher knows, in the order in which it prefers
/// them.
pub open spec fn known_terminals() -> Seq<Seq<char>> {
    seq![
        "kitty"@,
        "alacritty"@,
        "ghostty"@,
        "foot"@,
        "wezterm"@,
        "gnome-terminal"@,
        "konsole"@,
        "xterm"@,
    ]
}

/// The index of the first terminal that is installed, from `from` on.
pub open spec fn first_installed(installed: Seq<bool>, from: int) -> Option<int>
    decreases installed.len() - from + 1,
{
    if from < 0 || from >= installed.len() || from >= known_terminals().len() {
        None
    } else if installed[from] {
        Some(from)
    } else {
        first_installed(installed, from + 1)
    }
}

/// The terminal to use, where `installed` says of each known terminal
/// whether it is installed: the first that is, or `xterm` if none is.
pub open spec fn chosen_terminal(installed: Seq<bool>) -> Seq<char> {
    match first_installed(installed, 0) {
        Some(i) => known_terminals()[i],
        None => "xterm"@,
    }
}

/// The terminals that the launcher knows, in the order in which it prefers
/// them.
pub fn terminals() -> (r: Vec<&'static str>)
    ensures
        r@.len() == known_terminals().len(),
        forall|i: int| 0 <= i < r@.len() ==> (#[trigger] r@[i])@ == known_terminals()[i],
{
    let mut r: Vec<&'static str> = Vec::new();
    r.push("kitty");
    r.push("alacritty");
    r.push("ghostty");
    r.push("foot");
    r.push("wezterm");
    r.push("gnome-terminal");
    r.push("konsole");
    r.push("xterm");
    r
}

/// The terminal to use, where `installed` says of each terminal of
/// [`terminals`] whether it is installed.
pub fn detect_terminal(installed: &Vec<bool>) -> (r: &'static str)
    ensures
        r@ == chosen_terminal(installed@),
{
    let all = terminals();
    let mut i: usize = 0;
    while i < installed.len() && i < all.len()
        invariant
            all@.len() == known_terminals().len(),
            forall|k: int| 0 <= k < all@.len() ==> (#[trigger] all@[k])@ == known_terminals()[k],
            first_installed(installed@, 0) == first_installed(installed@, i as int),
        decreases installed.len() - i,
    {
        if installed[i] {
            return all[i];
        }
        i += 1;
    }
    "xterm"
}

} // verus!
