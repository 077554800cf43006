//! The application provider: the installed applications, as the user has
//! arranged them, and their order for a query.

use vstd::prelude::*;
use fuzzy_matcher::FuzzyMatcher;
use crate::candidate::{item_views, none_from, ranked, AppItem, AppItemView, IconSource,
    IconSourceView};
use crate::config::{text_view, CustomApp, CustomAppView};
use crate::history::{count_in, Entries, History};
use crate::launch::{action_key, normalized_key};
use crate::ranking::{lemma_sort_order, picked, rank_views, sort_order, Rank, RankView};
use crate::text::{chars_of, contains, contains_sub, copy_str, ends_with, has_prefix, has_suffix,
    lower, lowercase, same, slice, starts_with, str_eq};

verus! {

/// The score of `choice` for the pattern `pattern`, as the fuzzy matcher
/// computes it; `None` where the pattern does not match.
pub uninterp spec fn skim_fuzzy_score(choice: Seq<char>, pattern: Seq<char>) -> Option<i64>;

/// Calls `fuzzy_match` of a fresh `fuzzy_matcher::skim::SkimMatcherV2` with
/// its default settings.  A fresh matcher starts from empty work space, so
/// that the score depends on the two strings alone.
#[verifier::external_body]
pub(crate) fn fuzzy_score(choice: &str, pattern: &str) -> (r: Option<i64>)
    ensures
        r == skim_fuzzy_score(choice@, pattern@),
{
    fuzzy_matcher::skim::SkimMatcherV2::default().fuzzy_match(choice, pattern)
}

/// One entry of the application registry.
#[derive(Clone, Debug)]
pub struct RegistryEntry {
    /// The desktop identifier, if the entry has one.
    pub id: Option<String>,
    pub name: String,
    /// Whether the registry wants the entry shown.
    pub should_show: bool,
    pub commandline: Option<String>,
    pub terminal: bool,
    /// Whether the registry has a picture for the entry.
    pub has_icon: bool,
}

/// The mathematical value of a [`RegistryEntry`].
pub struct RegistryEntryView {
    pub id: Option<Seq<char>>,
    pub name: Seq<char>,
    pub should_show: bool,
    pub commandline: Option<Seq<char>>,
    pub terminal: bool,
    pub has_icon: bool,
}

impl View for RegistryEntry {
    type V = RegistryEntryView;

    open spec fn view(&self) -> RegistryEntryView {
        RegistryEntryView {
            id: text_view(self.id),
            name: self.name@,
            should_show: self.should_show,
            commandline: text_view(self.commandline),
            terminal: self.terminal,
            has_icon: self.has_icon,
        }
    }
}

/// The views of a list of registry entries.
pub open spec fn registry_views(entries: Seq<RegistryEntry>) -> Seq<RegistryEntryView> {
    entries.map_values(|e: RegistryEntry| e@)
}

/// What the user has changed of the application filed under `key`.
#[derive(Clone, Debug)]
pub struct Override {
    pub key: String,
    pub app: CustomApp,
}

/// The mathematical value of the user's changes: keys with their records.
/// Of two records under one key the first counts.
pub type Overrides = Seq<(Seq<char>, CustomAppView)>;

/// The views of a list of overrides.
pub open spec fn override_views(store: Seq<Override>) -> Overrides {
    Seq::new(store.len(), |i: int| (store[i].key@, store[i].app@))
}

/// The record filed under `key`, looked for from the index `from` on.
pub open spec fn lookup_from(store: Overrides, key: Seq<char>, from: int) -> Option<CustomAppView>
    decreases store.len() - from + 1,
{
    if from < 0 || from >= store.len() {
        None
    } else if store[from].0 == key {
        Some(store[from].1)
    } else {
        lookup_from(store, key, from + 1)
    }
}

/// The record filed under `key`.
pub open spec fn lookup(store: Overrides, key: Seq<char>) -> Option<CustomAppView> {
    lookup_from(store, key, 0)
}

/// The identifier of an entry: its desktop identifier, or its name if it has
/// none.
pub open spec fn entry_id(e: RegistryEntryView) -> Seq<char> {
    match e.id {
        Some(id) => id,
        None => e.name,
    }
}

/// The record that applies to an entry: the one filed under its
/// identifier, else the one under the identifier without the ending
/// `.desktop`, else the one under its name.
pub open spec fn applying(store: Overrides, e: RegistryEntryView) -> Option<CustomAppView> {
    let id = entry_id(e);
    if lookup(store, id) is Some {
        lookup(store, id)
    } else if ends_with(id, ".desktop"@) && lookup(store, id.take(id.len() - ".desktop"@.len()))
        is Some {
        lookup(store, id.take(id.len() - ".desktop"@.len()))
    } else {
        lookup(store, e.name)
    }
}

/// Whether an entry counts as hidden: as the record that applies says, or,
/// where it says nothing, if the registry does not want the entry shown.
pub open spec fn is_hidden_app(store: Overrides, e: RegistryEntryView) -> bool {
    match applying(store, e) {
        Some(c) => match c.hidden {
            Some(h) => h,
            None => !e.should_show,
        },
        None => !e.should_show,
    }
}

/// The glyph for an application, by what its name holds, in lower case.
pub open spec fn nerd_icon(name: Seq<char>) -> Seq<char> {
    let n = lowercase(name);
    if contains_sub(n, "terminal"@) || contains_sub(n, "kitty"@) || contains_sub(n, "alacritty"@)
        || contains_sub(n, "foot"@) || contains_sub(n, "console"@) {
        "\u{f489}"@
    } else if contains_sub(n, "firefox"@) || contains_sub(n, "browser"@) || contains_sub(n, "zen"@)
        || contains_sub(n, "chromium"@) || contains_sub(n, "chrome"@) || contains_sub(n, "iron"@)
        || contains_sub(n, "vivaldi"@) || contains_sub(n, "epiphany"@) {
        "\u{f269}"@
    } else if contains_sub(n, "code"@) || contains_sub(n, "visual studio"@) || contains_sub(
        n,
        "vscodium"@,
    ) || contains_sub(n, "sublime"@) || contains_sub(n, "atom"@) || contains_sub(n, "jetbrains"@)
        || contains_sub(n, "pycharm"@) || contains_sub(n, "intellij"@) || contains_sub(n, "clion"@) {
        "\u{f0a1e}"@
    } else if contains_sub(n, "files"@) || contains_sub(n, "nemo"@) || contains_sub(n, "nautilus"@)
        || contains_sub(n, "thunar"@) || contains_sub(n, "dolphin"@) || contains_sub(n, "pcmanfm"@)
        || contains_sub(n, "index"@) {
        "\u{f024b}"@
    } else if contains_sub(n, "discord"@) || contains_sub(n, "vesktop"@) || contains_sub(
        n,
        "element"@,
    ) || contains_sub(n, "telegram"@) || contains_sub(n, "whatsapp"@) || contains_sub(n, "slack"@)
        || contains_sub(n, "signal"@) || contains_sub(n, "messenger"@) {
        "\u{f066f}"@
    } else if contains_sub(n, "spotify"@) || contains_sub(n, "music"@) || contains_sub(n, "amberol"@)
        || contains_sub(n, "rhythmbox"@) || contains_sub(n, "audacious"@) || contains_sub(
        n,
        "lollypop"@,
    ) {
        "\u{f1bc}"@
    } else if contains_sub(n, "steam"@) || contains_sub(n, "lutris"@) || contains_sub(n, "heroic"@)
        || contains_sub(n, "bottles"@) || contains_sub(n, "prism"@) || contains_sub(n, "minecraft"@)
        || contains_sub(n, "game"@) {
        "\u{f04d3}"@
    } else if contains_sub(n, "settings"@) || contains_sub(n, "control center"@) || contains_sub(
        n,
        "config"@,
    ) || contains_sub(n, "tweak"@) || contains_sub(n, "preferences"@) {
        "\u{eb51}"@
    } else if contains_sub(n, "editor"@) || contains_sub(n, "text"@) || contains_sub(n, "gedit"@)
        || contains_sub(n, "micro"@) || contains_sub(n, "nvim"@) || contains_sub(n, "vim"@)
        || contains_sub(n, "leafpad"@) || contains_sub(n, "mousepad"@) {
        "\u{f1782}"@
    } else if contains_sub(n, "image"@) || contains_sub(n, "pinta"@) || contains_sub(n, "gimp"@)
        || contains_sub(n, "inkscape"@) || contains_sub(n, "krita"@) || contains_sub(n, "darktable"@)
        || contains_sub(n, "digikam"@) || contains_sub(n, "photos"@) {
        "\u{f02e9}"@
    } else if contains_sub(n, "video"@) || contains_sub(n, "vlc"@) || contains_sub(n, "mpv"@)
        || contains_sub(n, "celluloid"@) || contains_sub(n, "totem"@) || contains_sub(n, "kdenlive"@)
        || contains_sub(n, "obs"@) {
        "\u{f0fce}"@
    } else if contains_sub(n, "mail"@) || contains_sub(n, "thunderbird"@) || contains_sub(n, "geary"@)
        || contains_sub(n, "evolution"@) || contains_sub(n, "mailspring"@) {
        "\u{f01ee}"@
    } else if contains_sub(n, "calendar"@) || contains_sub(n, "clock"@) || contains_sub(n, "time"@) {
        "\u{f00ed}"@
    } else if contains_sub(n, "calc"@) || contains_sub(n, "calculator"@) || contains_sub(
        n,
        "galculator"@,
    ) {
        "\u{f0a9a}"@
    } else if contains_sub(n, "camera"@) || contains_sub(n, "cheese"@) || contains_sub(n, "guvcview"@) {
        "\u{f0100}"@
    } else if contains_sub(n, "font"@) || contains_sub(n, "character"@) {
        "\u{f0b36}"@
    } else if contains_sub(n, "document"@) || contains_sub(n, "word"@) || contains_sub(n, "writer"@)
        || contains_sub(n, "office"@) || contains_sub(n, "libreoffice"@) {
        "\u{f0219}"@
    } else if contains_sub(n, "pdf"@) || contains_sub(n, "okular"@) || contains_sub(n, "evince"@)
        || contains_sub(n, "zathura"@) {
        "\u{f0226}"@
    } else if contains_sub(n, "system monitor"@) || contains_sub(n, "btop"@) || contains_sub(
        n,
        "htop"@,
    ) || contains_sub(n, "top"@) || contains_sub(n, "usage"@) {
        "\u{f154d}"@
    } else if contains_sub(n, "password"@) || contains_sub(n, "bitwarden"@) || contains_sub(
        n,
        "keepass"@,
    ) || contains_sub(n, "auth"@) {
        "\u{f07f5}"@
    } else if contains_sub(n, "download"@) || contains_sub(n, "transmission"@) || contains_sub(
        n,
        "qbittorrent"@,
    ) || contains_sub(n, "deluge"@) {
        "\u{f01da}"@
    } else if contains_sub(n, "note"@) || contains_sub(n, "obsidian"@) || contains_sub(n, "logseq"@)
        || contains_sub(n, "joplin"@) || contains_sub(n, "keep"@) {
        "\u{f178e}"@
    } else {
        "\u{f003b}"@
    }
}

/// The picture of an entry: the registry's, if it has one, unless the
/// record that applies names another: `nerd` for none, a path for an image
/// file, anything else for a picture of the icon theme.
pub open spec fn picture(record: Option<CustomAppView>, e: RegistryEntryView) -> IconSourceView {
    let named = match record {
        Some(c) => c.system_icon,
        None => None,
    };
    match named {
        Some(si) => {
            if si == "nerd"@ {
                IconSourceView::Glyph
            } else if starts_with(si, "/"@) {
                IconSourceView::File(si)
            } else {
                IconSourceView::Themed(si)
            }
        },
        None => {
            if e.has_icon {
                IconSourceView::Registry
            } else {
                IconSourceView::Glyph
            }
        },
    }
}

/// The candidate for an entry of the registry.
pub open spec fn app_item(store: Overrides, e: RegistryEntryView) -> AppItemView {
    let record = applying(store, e);
    let name = match record {
        Some(c) => match c.name {
            Some(n) => n,
            None => e.name,
        },
        None => e.name,
    };
    let glyph = match record {
        Some(c) => match c.icon {
            Some(i) => i,
            None => nerd_icon(name),
        },
        None => nerd_icon(name),
    };
    AppItemView {
        name,
        action: match e.commandline {
            Some(c) => c,
            None => Seq::empty(),
        },
        terminal: e.terminal,
        icon: glyph,
        desktop_id: entry_id(e),
        system_icon: picture(record, e),
    }
}

/// The candidates for the first `n` entries: the hidden ones if
/// `show_hidden` is set, else the others.
pub open spec fn apps_upto(
    entries: Seq<RegistryEntryView>,
    store: Overrides,
    show_hidden: bool,
    n: nat,
) -> Seq<AppItemView>
    decreases n,
{
    if n == 0 {
        Seq::empty()
    } else {
        let before = apps_upto(entries, store, show_hidden, (n - 1) as nat);
        if is_hidden_app(store, entries[n - 1]) == show_hidden {
            before.push(app_item(store, entries[n - 1]))
        } else {
            before
        }
    }
}

/// The installed applications as candidates, in the order of the registry.
pub open spec fn installed(
    entries: Seq<RegistryEntryView>,
    store: Overrides,
    show_hidden: bool,
) -> Seq<AppItemView> {
    apps_upto(entries, store, show_hidden, entries.len())
}

/// How often the action of a candidate has been used.
pub open spec fn usage(h: Entries, action: Seq<char>) -> u32 {
    count_in(h, normalized_key(action))
}

/// The rank of an application: by score, then by usage.
pub open spec fn app_rank(score: i64, uses: u32) -> RankView {
    RankView { score, uses, demerit: 0, depth: 0, label: Seq::empty() }
}

/// Whether the application at the index `i` has a score.
pub open spec fn has_score(scores: Seq<Option<i64>>, i: int) -> bool {
    0 <= i < scores.len() && scores[i] is Some
}

/// The applications among the first `n` that have a score.
pub open spec fn scored_upto(apps: Seq<AppItemView>, scores: Seq<Option<i64>>, n: nat) -> Seq<
    (AppItemView, i64),
>
    decreases n,
{
    if n == 0 {
        Seq::empty()
    } else {
        let before = scored_upto(apps, scores, (n - 1) as nat);
        if has_score(scores, n - 1) {
            before.push((apps[n - 1], scores[n - 1]->0))
        } else {
            before
        }
    }
}

/// The applications that have a score, by descending score, those of equal
/// score by descending usage, and those equal in both in the order given.
pub open spec fn ranked_apps(apps: Seq<AppItemView>, scores: Seq<Option<i64>>, h: Entries) -> Seq<
    AppItemView,
> {
    let m = scored_upto(apps, scores, apps.len());
    picked(
        Seq::new(m.len(), |i: int| m[i].0),
        sort_order(Seq::new(m.len(), |i: int| app_rank(m[i].1, usage(h, m[i].0.action)))),
    )
}

/// The score of each application's name for the text typed.
pub open spec fn fuzzy_scores(apps: Seq<AppItemView>, text: Seq<char>) -> Seq<Option<i64>> {
    Seq::new(apps.len(), |i: int| skim_fuzzy_score(apps[i].name, text))
}

/// All applications by descending usage, those of equal usage in the order
/// given.
pub open spec fn by_usage(apps: Seq<AppItemView>, h: Entries) -> Seq<AppItemView> {
    picked(apps, sort_order(Seq::new(apps.len(), |i: int| app_rank(0, usage(h, apps[i].action)))))
}

fn has(n: &Vec<char>, word: &str) -> (r: bool)
    ensures
        r == contains_sub(n@, word@),
{
    contains(n, &chars_of(word))
}

/// The glyph for an application of the name `name`.
pub fn get_nerd_icon(name: &str) -> (icon: &'static str)
    ensures
        icon@ == nerd_icon(name@),
{
    let n = lower(&chars_of(name));
    if has(&n, "terminal") || has(&n, "kitty") || has(&n, "alacritty") || has(&n, "foot") || has(
        &n,
        "console",
    ) {
        "\u{f489}"
    } else if has(&n, "firefox") || has(&n, "browser") || has(&n, "zen") || has(&n, "chromium")
        || has(&n, "chrome") || has(&n, "iron") || has(&n, "vivaldi") || has(&n, "epiphany") {
        "\u{f269}"
    } else if has(&n, "code") || has(&n, "visual studio") || has(&n, "vscodium") || has(
        &n,
        "sublime",
    ) || has(&n, "atom") || has(&n, "jetbrains") || has(&n, "pycharm") || has(&n, "intellij")
        || has(&n, "clion") {
        "\u{f0a1e}"
    } else if has(&n, "files") || has(&n, "nemo") || has(&n, "nautilus") || has(&n, "thunar")
        || has(&n, "dolphin") || has(&n, "pcmanfm") || has(&n, "index") {
        "\u{f024b}"
    } else if has(&n, "discord") || has(&n, "vesktop") || has(&n, "element") || has(
        &n,
        "telegram",
    ) || has(&n, "whatsapp") || has(&n, "slack") || has(&n, "signal") || has(&n, "messenger") {
        "\u{f066f}"
    } else if has(&n, "spotify") || has(&n, "music") || has(&n, "amberol") || has(&n, "rhythmbox")
        || has(&n, "audacious") || has(&n, "lollypop") {
        "\u{f1bc}"
    } else if has(&n, "steam") || has(&n, "lutris") || has(&n, "heroic") || has(&n, "bottles")
        || has(&n, "prism") || has(&n, "minecraft") || has(&n, "game") {
        "\u{f04d3}"
    } else if has(&n, "settings") || has(&n, "control center") || has(&n, "config") || has(
        &n,
        "tweak",
    ) || has(&n, "preferences") {
        "\u{eb51}"
    } else if has(&n, "editor") || has(&n, "text") || has(&n, "gedit") || has(&n, "micro") || has(
        &n,
        "nvim",
    ) || has(&n, "vim") || has(&n, "leafpad") || has(&n, "mousepad") {
        "\u{f1782}"
    } else if has(&n, "image") || has(&n, "pinta") || has(&n, "gimp") || has(&n, "inkscape")
        || has(&n, "krita") || has(&n, "darktable") || has(&n, "digikam") || has(&n, "photos") {
        "\u{f02e9}"
    } else if has(&n, "video") || has(&n, "vlc") || has(&n, "mpv") || has(&n, "celluloid") || has(
        &n,
        "totem",
    ) || has(&n, "kdenlive") || has(&n, "obs") {
        "\u{f0fce}"
    } else if has(&n, "mail") || has(&n, "thunderbird") || has(&n, "geary") || has(
        &n,
        "evolution",
    ) || has(&n, "mailspring") {
        "\u{f01ee}"
    } else if has(&n, "calendar") || has(&n, "clock") || has(&n, "time") {
        "\u{f00ed}"
    } else if has(&n, "calc") || has(&n, "calculator") || has(&n, "galculator") {
        "\u{f0a9a}"
    } else if has(&n, "camera") || has(&n, "cheese") || has(&n, "guvcview") {
        "\u{f0100}"
    } else if has(&n, "font") || has(&n, "character") {
        "\u{f0b36}"
    } else if has(&n, "document") || has(&n, "word") || has(&n, "writer") || has(&n, "office")
        || has(&n, "libreoffice") {
        "\u{f0219}"
    } else if has(&n, "pdf") || has(&n, "okular") || has(&n, "evince") || has(&n, "zathura") {
        "\u{f0226}"
    } else if has(&n, "system monitor") || has(&n, "btop") || has(&n, "htop") || has(&n, "top")
        || has(&n, "usage") {
        "\u{f154d}"
    } else if has(&n, "password") || has(&n, "bitwarden") || has(&n, "keepass") || has(
        &n,
        "auth",
    ) {
        "\u{f07f5}"
    } else if has(&n, "download") || has(&n, "transmission") || has(&n, "qbittorrent") || has(
        &n,
        "deluge",
    ) {
        "\u{f01da}"
    } else if has(&n, "note") || has(&n, "obsidian") || has(&n, "logseq") || has(&n, "joplin")
        || has(&n, "keep") {
        "\u{f178e}"
    } else {
        "\u{f003b}"
    }
}

/// The index of the first record filed under `key`.
fn find_record(store: &Vec<Override>, key: &Vec<char>) -> (r: Option<usize>)
    ensures
        match r {
            Some(i) => i < store@.len() && lookup(override_views(store@), key@) == Some(
                store@[i as int].app@,
            ),
            None => lookup(override_views(store@), key@) is None,
        },
{
    let ghost sv = override_views(store@);
    let mut i: usize = 0;
    while i < store.len()
        invariant
            i <= store.len(),
            sv == override_views(store@),
            lookup(sv, key@) == lookup_from(sv, key@, i as int),
        decreases store.len() - i,
    {
        if same(&chars_of(store[i].key.as_str()), key) {
            return Some(i);
        }
        i += 1;
    }
    None
}

/// The index of the record that applies to an entry.
fn find_applying(store: &Vec<Override>, e: &RegistryEntry) -> (r: Option<usize>)
    ensures
        match r {
            Some(i) => i < store@.len() && applying(override_views(store@), e@) == Some(
                store@[i as int].app@,
            ),
            None => applying(override_views(store@), e@) is None,
        },
{
    let name = chars_of(e.name.as_str());
    let id = match &e.id {
        Some(id) => chars_of(id.as_str()),
        None => chars_of(e.name.as_str()),
    };
    let by_id = find_record(store, &id);
    if by_id.is_some() {
        return by_id;
    }
    let ending = chars_of(".desktop");
    if has_suffix(&id, &ending) {
        let base = slice(&id, 0, id.len() - ending.len());
        assert(base@ =~= id@.take(id@.len() - ".desktop"@.len()));
        let by_base = find_record(store, &base);
        if by_base.is_some() {
            return by_base;
        }
    }
    find_record(store, &name)
}

fn picture_of(named: &Option<String>, has_icon: bool) -> (r: IconSource)
    ensures
        r@ == match text_view(*named) {
            Some(si) => {
                if si == "nerd"@ {
                    IconSourceView::Glyph
                } else if starts_with(si, "/"@) {
                    IconSourceView::File(si)
                } else {
                    IconSourceView::Themed(si)
                }
            },
            None => {
                if has_icon {
                    IconSourceView::Registry
                } else {
                    IconSourceView::Glyph
                }
            },
        },
{
    match named {
        Some(si) => {
            if str_eq(si.as_str(), "nerd") {
                IconSource::Glyph
            } else if has_prefix(&chars_of(si.as_str()), &chars_of("/")) {
                IconSource::File(copy_str(si.as_str()))
            } else {
                IconSource::Themed(copy_str(si.as_str()))
            }
        },
        None => {
            if has_icon {
                IconSource::Registry
            } else {
                IconSource::Glyph
            }
        },
    }
}

fn item_of_entry(store: &Vec<Override>, e: &RegistryEntry) -> (r: (AppItem, bool))
    ensures
        r.0@ == app_item(override_views(store@), e@),
        r.1 == is_hidden_app(override_views(store@), e@),
{
    let found = find_applying(store, e);
    let no_text: Option<String> = None;
    let (name, glyph, named, hidden): (String, Option<String>, &Option<String>, Option<bool>) =
        match found {
        Some(i) => {
            let app = &store[i].app;
            let name = match &app.name {
                Some(n) => copy_str(n.as_str()),
                None => copy_str(e.name.as_str()),
            };
            let glyph = match &app.icon {
                Some(g) => Some(copy_str(g.as_str())),
                None => None,
            };
            (name, glyph, &app.system_icon, app.hidden)
        },
        None => (copy_str(e.name.as_str()), None, &no_text, None),
    };
    let icon = match glyph {
        Some(g) => g,
        None => copy_str(get_nerd_icon(name.as_str())),
    };
    let item = AppItem {
        name,
        action: match &e.commandline {
            Some(c) => copy_str(c.as_str()),
            None => String::new(),
        },
        terminal: e.terminal,
        icon,
        desktop_id: match &e.id {
            Some(id) => copy_str(id.as_str()),
            None => copy_str(e.name.as_str()),
        },
        system_icon: picture_of(named, e.has_icon),
    };
    let is_hidden = match hidden {
        Some(h) => h,
        None => !e.should_show,
    };
    (item, is_hidden)
}

/// The installed applications as candidates: the hidden ones if
/// `show_hidden` is set, else the others.
pub fn get_apps(entries: &Vec<RegistryEntry>, store: &Vec<Override>, show_hidden: bool) -> (r: Vec<
    AppItem,
>)
    ensures
        item_views(r@) == installed(registry_views(entries@), override_views(store@), show_hidden),
{
    let ghost ev = registry_views(entries@);
    let ghost sv = override_views(store@);
    let mut out: Vec<AppItem> = Vec::new();
    let mut i: usize = 0;
    assert(item_views(out@) =~= apps_upto(ev, sv, show_hidden, 0));
    while i < entries.len()
        invariant
            i <= entries.len(),
            ev == registry_views(entries@),
            sv == override_views(store@),
            item_views(out@) == apps_upto(ev, sv, show_hidden, i as nat),
        decreases entries.len() - i,
    {
        assert(ev[i as int] == entries@[i as int]@);
        let ghost before = out@;
        let (item, is_hidden) = item_of_entry(store, &entries[i]);
        if is_hidden == show_hidden {
            out.push(item);
            assert(item_views(out@) =~= item_views(before).push(app_item(sv, ev[i as int])));
        }
        i += 1;
    }
    out
}

/// The applications that have a score, in ranked order.  `scores` holds
/// the score of each application of `apps`, at the same index.
pub fn rank_apps(apps: &Vec<AppItem>, scores: &Vec<Option<i64>>, history: &History) -> (r: Vec<
    AppItem,
>)
    requires
        history.wf(),
    ensures
        item_views(r@) == ranked_apps(item_views(apps@), scores@, history@),
{
    let ghost av = item_views(apps@);
    let ghost mut m: Seq<(AppItemView, i64)> = Seq::empty();
    let mut items: Vec<AppItem> = Vec::new();
    let mut ranks: Vec<Rank> = Vec::new();
    let mut i: usize = 0;
    while i < apps.len()
        invariant
            i <= apps.len(),
            history.wf(),
            av == item_views(apps@),
            m == scored_upto(av, scores@, i as nat),
            items@.len() == m.len(),
            ranks@.len() == m.len(),
            forall|k: int| 0 <= k < m.len() ==> (#[trigger] items@[k])@ == m[k].0,
            forall|k: int|
                0 <= k < m.len() ==> (#[trigger] ranks@[k])@ == app_rank(
                    m[k].1,
                    usage(history@, m[k].0.action),
                ),
        decreases apps.len() - i,
    {
        assert(av[i as int] == apps@[i as int]@);
        if i < scores.len() {
            match scores[i] {
                Some(score) => {
                    let key = action_key(apps[i].action.as_str());
                    let uses = history.get(key.as_str());
                    items.push(apps[i].duplicate());
                    let label: Vec<char> = Vec::new();
                    assert(label@ =~= Seq::<char>::empty());
                    ranks.push(Rank { score, uses, demerit: 0, depth: 0, label });
                    proof {
                        m = m.push((apps@[i as int]@, score));
                    }
                },
                None => {},
            }
        }
        i += 1;
    }
    assert(item_views(items@) =~= Seq::new(m.len(), |k: int| m[k].0));
    assert(rank_views(ranks@) =~= Seq::new(
        m.len(),
        |k: int| app_rank(m[k].1, usage(history@, m[k].0.action)),
    ));
    ranked(&items, &ranks)
}

/// The applications that match the text typed, in ranked order.
pub fn match_apps(apps: &Vec<AppItem>, text: &str, history: &History) -> (r: Vec<AppItem>)
    requires
        history.wf(),
    ensures
        item_views(r@) == ranked_apps(
            item_views(apps@),
            fuzzy_scores(item_views(apps@), text@),
            history@,
        ),
{
    let mut scores: Vec<Option<i64>> = Vec::new();
    let mut i: usize = 0;
    while i < apps.len()
        invariant
            i <= apps.len(),
            scores@.len() == i,
            forall|k: int|
                0 <= k < i ==> #[trigger] scores@[k] == skim_fuzzy_score(apps@[k].name@, text@),
        decreases apps.len() - i,
    {
        scores.push(fuzzy_score(apps[i].name.as_str(), text));
        i += 1;
    }
    assert(scores@ =~= fuzzy_scores(item_views(apps@), text@));
    rank_apps(apps, &scores, history)
}

/// All applications by descending usage.
pub fn sort_by_usage(apps: &Vec<AppItem>, history: &History) -> (r: Vec<AppItem>)
    requires
        history.wf(),
    ensures
        item_views(r@) == by_usage(item_views(apps@), history@),
        r@.len() == apps@.len(),
{
    let mut ranks: Vec<Rank> = Vec::new();
    let mut i: usize = 0;
    while i < apps.len()
        invariant
            i <= apps.len(),
            history.wf(),
            ranks@.len() == i,
            forall|k: int|
                0 <= k < i ==> (#[trigger] ranks@[k])@ == app_rank(
                    0,
                    usage(history@, apps@[k]@.action),
                ),
        decreases apps.len() - i,
    {
        let key = action_key(apps[i].action.as_str());
        let uses = history.get(key.as_str());
        let label: Vec<char> = Vec::new();
        assert(label@ =~= Seq::<char>::empty());
        ranks.push(Rank { score: 0, uses, demerit: 0, depth: 0, label });
        i += 1;
    }
    assert(rank_views(ranks@) =~= Seq::new(
        apps@.len(),
        |k: int| app_rank(0, usage(history@, item_views(apps@)[k].action)),
    ));
    ranked(apps, &ranks)
}


proof fn lemma_scored_are_apps(
    apps: Seq<AppItemView>,
    scores: Seq<Option<i64>>,
    n: nat,
    id: Seq<char>,
)
    requires
        n <= apps.len(),
        none_from(apps, id),
    ensures
        forall|i: int|
            0 <= i < scored_upto(apps, scores, n).len() ==> (#[trigger] scored_upto(
                apps,
                scores,
                n,
            )[i]).0.desktop_id != id,
    decreases n,
{
    if n > 0 {
        lemma_scored_are_apps(apps, scores, (n - 1) as nat, id);
        let before = scored_upto(apps, scores, (n - 1) as nat);
        let all = scored_upto(apps, scores, n);
        assert forall|i: int| 0 <= i < all.len() implies (#[trigger] all[i]).0.desktop_id != id by {
            if i < before.len() {
                assert(all[i] == before[i]);
            } else {
                assert(all[i].0 == apps[n - 1]);
            }
        }
    }
}

/// The ranked applications are among the applications given: an identifier
/// that none of these has, none of those has.
pub proof fn lemma_ranked_apps_are_apps(
    apps: Seq<AppItemView>,
    scores: Seq<Option<i64>>,
    h: Entries,
    id: Seq<char>,
)
    requires
        none_from(apps, id),
    ensures
        none_from(ranked_apps(apps, scores, h), id),
{
    let m = scored_upto(apps, scores, apps.len());
    lemma_scored_are_apps(apps, scores, apps.len(), id);
    let ranks = Seq::new(m.len(), |i: int| app_rank(m[i].1, usage(h, m[i].0.action)));
    lemma_sort_order(ranks);
    let order = sort_order(ranks);
    let result = ranked_apps(apps, scores, h);
    assert forall|i: int| 0 <= i < result.len() implies (#[trigger] result[i]).desktop_id != id by {
        assert(0 <= order[i] < m.len());
        assert(result[i] == m[order[i]].0);
    }
}

} // verus!
