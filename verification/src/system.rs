//! The system provider: the power actions, by name.

use vstd::prelude::*;
use crate::candidate::{item_views, none_from, AppItem, AppItemView, IconSourceView};
use crate::config::{option_views, PowerOption, PowerOptionView};
use crate::text::{chars_of, copy_str, lower, lowercase, same, str_eq};

verus! {

/// The name under which a power option is found, by its style class; `None`
/// for an option that has no name.
pub open spec fn option_name(class: Seq<char>) -> Option<Seq<char>> {
    if class == "shutdown-btn"@ {
        Some("Shutdown"@)
    } else if class == "reboot-btn"@ {
        Some("Reboot"@)
    } else if class == "logout-btn"@ {
        Some("Log Out"@)
    } else if class == "theme-btn"@ {
        Some("Toggle Theme"@)
    } else {
        None
    }
}

/// The candidate for a power option under its name.
pub open spec fn option_item(o: PowerOptionView, name: Seq<char>) -> AppItemView {
    AppItemView {
        name,
        action: o.command,
        terminal: false,
        icon: o.icon,
        desktop_id: "system"@,
        system_icon: IconSourceView::Glyph,
    }
}

/// The candidates among the first `n` options: those whose name is the
/// query, compared in lower case.
pub open spec fn commands_upto(query: Seq<char>, options: Seq<PowerOptionView>, n: nat) -> Seq<
    AppItemView,
>
    decreases n,
{
    if n == 0 {
        Seq::empty()
    } else {
        let before = commands_upto(query, options, (n - 1) as nat);
        let o = options[n - 1];
        match option_name(o.class) {
            Some(name) => {
                if lowercase(name) == lowercase(query) {
                    before.push(option_item(o, name))
                } else {
                    before
                }
            },
            None => before,
        }
    }
}

/// The candidates of the system provider for a query.
pub open spec fn system_commands(query: Seq<char>, options: Seq<PowerOptionView>) -> Seq<
    AppItemView,
> {
    commands_upto(query, options, options.len())
}

fn name_of_option(class: &str) -> (r: Option<&'static str>)
    ensures
        match r {
            Some(n) => option_name(class@) == Some(n@),
            None => option_name(class@) is None,
        },
{
    if str_eq(class, "shutdown-btn") {
        Some("Shutdown")
    } else if str_eq(class, "reboot-btn") {
        Some("Reboot")
    } else if str_eq(class, "logout-btn") {
        Some("Log Out")
    } else if str_eq(class, "theme-btn") {
        Some("Toggle Theme")
    } else {
        None
    }
}

/// The candidates of the system provider for `query`.
pub fn check_system_commands(query: &str, options: &Vec<PowerOption>) -> (r: Vec<AppItem>)
    ensures
        item_views(r@) == system_commands(query@, option_views(options@)),
{
    let q = lower(&chars_of(query));
    let ghost ov = option_views(options@);
    let mut out: Vec<AppItem> = Vec::new();
    let mut i: usize = 0;
    assert(item_views(out@) =~= commands_upto(query@, ov, 0));
    while i < options.len()
        invariant
            i <= options.len(),
            ov == option_views(options@),
            q@ == lowercase(query@),
            item_views(out@) == commands_upto(query@, ov, i as nat),
        decreases options.len() - i,
    {
        let o = &options[i];
        assert(ov[i as int] == o@);
        let ghost before = out@;
        match name_of_option(o.class.as_str()) {
            Some(name) => {
                if same(&lower(&chars_of(name)), &q) {
                    let item = AppItem {
                        name: copy_str(name),
                        action: copy_str(o.command.as_str()),
                        terminal: false,
                        icon: copy_str(o.icon.as_str()),
                        desktop_id: copy_str("system"),
                        system_icon: crate::candidate::IconSource::Glyph,
                    };
                    out.push(item);
                    assert(item_views(out@) =~= item_views(before).push(option_item(o@, name@)));
                }
            },
            None => {},
        }
        i += 1;
    }
    out
}


/// Every candidate of the system provider has the desktop identifier
/// `system`.
pub proof fn lemma_system_commands_are_system(
    query: Seq<char>,
    options: Seq<PowerOptionView>,
    n: nat,
    id: Seq<char>,
)
    requires
        id != "system"@,
    ensures
        none_from(commands_upto(query, options, n), id),
    decreases n,
{
    if n > 0 {
        lemma_system_commands_are_system(query, options, (n - 1) as nat, id);
        let before = commands_upto(query, options, (n - 1) as nat);
        let all = commands_upto(query, options, n);
        assert forall|i: int| 0 <= i < all.len() implies (#[trigger] all[i]).desktop_id != id by {
            if i < before.len() {
                assert(all[i] == before[i]);
            }
        }
    }
}

} // verus!
