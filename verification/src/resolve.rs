//! The aggregator: which candidates a query has, and in which order.
//!
//! The calculator and the file provider need the outside world; what they
//! found is handed in.  The other providers are asked here.

use vstd::prelude::*;
use crate::apps::{app_rank, by_usage, fuzzy_scores, lemma_ranked_apps_are_apps, match_apps,
    rank_apps, ranked_apps, sort_by_usage, usage};
use crate::candidate::{extend, item_views, lemma_none_from_both, none_from, plain_item, AppItem,
    AppItemView};
use crate::config::{option_views, PowerOption, PowerOptionView};
use crate::history::{Entries, History};
use crate::ranking::{lemma_sort_order, outranks, sort_order};
use crate::system::{check_system_commands, lemma_system_commands_are_system, system_commands};
use crate::text::{chars_of, has_prefix, starts_with, str_eq};
use crate::web::{check_web, lemma_web_results_are_web, regex_language, web_candidates,
    web_results};

verus! {

/// The candidate that shows the hotkey help.
pub open spec fn hotkeys_item() -> AppItemView {
    plain_item("Show Hotkeys Help"@, "SHOW_HOTKEYS"@, "\u{f030c}"@, "internal"@)
}

/// The candidates in front of the list: the hotkey help for the query
/// `hotkeys?`, then the result of the calculator if it has one.
pub open spec fn head(text: Seq<char>, calc: Option<AppItemView>) -> Seq<AppItemView> {
    (if text == "hotkeys?"@ {
        seq![hotkeys_item()]
    } else {
        Seq::empty()
    }) + (match calc {
        Some(c) => seq![c],
        None => Seq::empty(),
    })
}

/// Whether the candidates for files come before those of the web: they do
/// for a query that begins with `/` or `~`.
pub open spec fn files_first(text: Seq<char>) -> bool {
    starts_with(text, "/"@) || starts_with(text, "~"@)
}

/// The candidates for files and of the web, in their order for the query.
pub open spec fn block(text: Seq<char>, files: Seq<AppItemView>, web: Seq<AppItemView>) -> Seq<
    AppItemView,
> {
    if files_first(text) {
        files + web
    } else {
        web + files
    }
}

/// The candidates for a query.  `calc` and `files` are what the
/// calculator and the file provider found, `url_like` says whether the
/// query has the shape of a link, and `scores` holds the fuzzy score of
/// each application.
///
/// With nothing typed the list is all applications by usage.  Otherwise it
/// is the head, the block of files and web, the power actions of that name
/// and the matching applications in ranked order.
pub open spec fn merged(
    text: Seq<char>,
    apps: Seq<AppItemView>,
    h: Entries,
    options: Seq<PowerOptionView>,
    engine: Seq<char>,
    calc: Option<AppItemView>,
    files: Seq<AppItemView>,
    url_like: bool,
    scores: Seq<Option<i64>>,
) -> Seq<AppItemView> {
    if text.len() == 0 {
        by_usage(apps, h)
    } else {
        head(text, calc) + block(text, files, web_results(text, h, engine, url_like))
            + system_commands(text, options) + ranked_apps(apps, scores, h)
    }
}

fn assemble(
    text: &str,
    calc: &Option<AppItem>,
    files: &Vec<AppItem>,
    web: &Vec<AppItem>,
    system: &Vec<AppItem>,
    matched: &Vec<AppItem>,
) -> (r: Vec<AppItem>)
    ensures
        item_views(r@) == head(
            text@,
            match *calc {
                Some(c) => Some(c@),
                None => None,
            },
        ) + block(text@, item_views(files@), item_views(web@)) + item_views(system@) + item_views(
            matched@,
        ),
{
    let t = chars_of(text);
    let mut out: Vec<AppItem> = Vec::new();
    assert(item_views(out@) =~= Seq::<AppItemView>::empty());
    if str_eq(text, "hotkeys?") {
        out.push(AppItem::plain("Show Hotkeys Help", "SHOW_HOTKEYS", "\u{f030c}", "internal"));
        assert(item_views(out@) =~= seq![hotkeys_item()]);
    }
    match calc {
        Some(c) => {
            let ghost before = out@;
            out.push(c.duplicate());
            assert(item_views(out@) =~= item_views(before) + seq![c@]);
        },
        None => {
            assert(item_views(out@) =~= item_views(out@) + Seq::<AppItemView>::empty());
        },
    }
    let ghost front = item_views(out@);
    if has_prefix(&t, &chars_of("/")) || has_prefix(&t, &chars_of("~")) {
        extend(&mut out, files);
        extend(&mut out, web);
        assert(item_views(out@) =~= front + (item_views(files@) + item_views(web@)));
    } else {
        extend(&mut out, web);
        extend(&mut out, files);
        assert(item_views(out@) =~= front + (item_views(web@) + item_views(files@)));
    }
    extend(&mut out, system);
    extend(&mut out, matched);
    out
}

/// The candidates for `text`, from what all providers found: `calc` and
/// `files` as handed in, `url_like` for the shape of the query and
/// `scores` for the fuzzy score of each application.
pub fn merge(
    text: &str,
    apps: &Vec<AppItem>,
    history: &History,
    options: &Vec<PowerOption>,
    search_engine: &str,
    calc: &Option<AppItem>,
    files: &Vec<AppItem>,
    url_like: bool,
    scores: &Vec<Option<i64>>,
) -> (r: Vec<AppItem>)
    requires
        history.wf(),
    ensures
        item_views(r@) == merged(
            text@,
            item_views(apps@),
            history@,
            option_views(options@),
            search_engine@,
            match *calc {
                Some(c) => Some(c@),
                None => None,
            },
            item_views(files@),
            url_like,
            scores@,
        ),
{
    if chars_of(text).len() == 0 {
        return sort_by_usage(apps, history);
    }
    let web = web_candidates(text, history, search_engine, url_like);
    let system = check_system_commands(text, options);
    let matched = rank_apps(apps, scores, history);
    assemble(text, calc, files, &web, &system, &matched)
}

/// The candidates for `text`, where `calc` and `files` are what the
/// calculator and the file provider found, and `url_re` is the expression
/// for the shape of a bare link.
pub fn resolve(
    text: &str,
    apps: &Vec<AppItem>,
    history: &History,
    options: &Vec<PowerOption>,
    search_engine: &str,
    calc: &Option<AppItem>,
    files: &Vec<AppItem>,
    url_re: &regex::Regex,
) -> (r: Vec<AppItem>)
    requires
        history.wf(),
    ensures
        item_views(r@) == merged(
            text@,
            item_views(apps@),
            history@,
            option_views(options@),
            search_engine@,
            match *calc {
                Some(c) => Some(c@),
                None => None,
            },
            item_views(files@),
            regex_language(*url_re).contains(text@),
            fuzzy_scores(item_views(apps@), text@),
        ),
{
    if chars_of(text).len() == 0 {
        return sort_by_usage(apps, history);
    }
    let web = check_web(text, history, url_re, search_engine);
    let system = check_system_commands(text, options);
    let matched = match_apps(apps, text, history);
    assemble(text, calc, files, &web, &system, &matched)
}

/// For a query that is not empty and does not ask for the hotkey help, the
/// list begins with the result of the calculator, if there is one, and
/// goes on with the candidates of the web and those for files: the web
/// first, unless the query begins with `/` or `~`.
pub proof fn lemma_list_begins_with_calc_and_block(
    text: Seq<char>,
    apps: Seq<AppItemView>,
    h: Entries,
    options: Seq<PowerOptionView>,
    engine: Seq<char>,
    calc: Option<AppItemView>,
    files: Seq<AppItemView>,
    url_like: bool,
    scores: Seq<Option<i64>>,
)
    requires
        text.len() > 0,
        text != "hotkeys?"@,
    ensures
        ({
            let web = web_results(text, h, engine, url_like);
            let result = merged(text, apps, h, options, engine, calc, files, url_like, scores);
            let front = (match calc {
                Some(c) => seq![c],
                None => Seq::empty(),
            }) + (if starts_with(text, "/"@) || starts_with(text, "~"@) {
                files + web
            } else {
                web + files
            });
            front.is_prefix_of(result)
        }),
{
    let web = web_results(text, h, engine, url_like);
    let result = merged(text, apps, h, options, engine, calc, files, url_like, scores);
    let front = (match calc {
        Some(c) => seq![c],
        None => Seq::<AppItemView>::empty(),
    }) + block(text, files, web);
    assert(head(text, calc) =~= match calc {
        Some(c) => seq![c],
        None => Seq::<AppItemView>::empty(),
    });
    assert(result.subrange(0, front.len() as int) =~= front);
}

/// With nothing typed, the list is all applications in an order in which
/// usage never rises, and in which applications of equal usage keep the
/// order in which they were given.
pub proof fn lemma_empty_query_lists_apps_by_usage(
    apps: Seq<AppItemView>,
    h: Entries,
    options: Seq<PowerOptionView>,
    engine: Seq<char>,
    calc: Option<AppItemView>,
    files: Seq<AppItemView>,
    url_like: bool,
    scores: Seq<Option<i64>>,
)
    ensures
        ({
            let result = merged(
                Seq::<char>::empty(),
                apps,
                h,
                options,
                engine,
                calc,
                files,
                url_like,
                scores,
            );
            let order = sort_order(
                Seq::new(apps.len(), |i: int| app_rank(0, usage(h, apps[i].action))),
            );
            &&& result.len() == apps.len()
            &&& order.len() == apps.len()
            &&& order.no_duplicates()
            &&& forall|i: int| 0 <= i < apps.len() ==> 0 <= #[trigger] order[i] < apps.len()
            &&& forall|i: int| 0 <= i < apps.len() ==> #[trigger] result[i] == apps[order[i]]
            &&& forall|i: int, j: int|
                0 <= i < j < apps.len() ==> usage(h, #[trigger] result[i].action) >= usage(
                    h,
                    #[trigger] result[j].action,
                )
            &&& forall|i: int, j: int|
                0 <= i < j < apps.len() && usage(h, apps[#[trigger] order[i]].action) == usage(
                    h,
                    apps[#[trigger] order[j]].action,
                ) ==> order[i] < order[j]
        }),
{
    let ranks = Seq::new(apps.len(), |i: int| app_rank(0, usage(h, apps[i].action)));
    let order = sort_order(ranks);
    lemma_sort_order(ranks);
    let result = by_usage(apps, h);
    assert forall|i: int, j: int| 0 <= i < j < apps.len() implies usage(
        h,
        #[trigger] result[i].action,
    ) >= usage(h, #[trigger] result[j].action) by {
        assert(!outranks(ranks[order[j]], ranks[order[i]]));
        crate::ranking::lemma_lex_lt_irreflexive(Seq::<char>::empty());
    }
    assert forall|i: int, j: int|
        0 <= i < j < apps.len() && usage(h, apps[#[trigger] order[i]].action) == usage(
            h,
            apps[#[trigger] order[j]].action,
        ) implies order[i] < order[j] by {
        crate::ranking::lemma_lex_lt_irreflexive(Seq::<char>::empty());
        assert(!outranks(ranks[order[i]], ranks[order[j]]));
    }
}


/// Where the calculator has a result, and neither a candidate for files
/// nor an application goes by the identifier `calc`, the result of the
/// calculator is the first candidate of the list and the only one of the
/// calculator.  The query must not be empty and must not ask for the
/// hotkey help.
pub proof fn lemma_calculator_result_is_first_and_alone(
    text: Seq<char>,
    apps: Seq<AppItemView>,
    h: Entries,
    options: Seq<PowerOptionView>,
    engine: Seq<char>,
    calc: AppItemView,
    files: Seq<AppItemView>,
    url_like: bool,
    scores: Seq<Option<i64>>,
)
    requires
        text.len() > 0,
        text != "hotkeys?"@,
        none_from(files, "calc"@),
        none_from(apps, "calc"@),
    ensures
        ({
            let result = merged(text, apps, h, options, engine, Some(calc), files, url_like, scores);
            &&& result.len() > 0
            &&& result[0] == calc
            &&& none_from(result.skip(1), "calc"@)
        }),
{
    let id = "calc"@;
    reveal_strlit("calc");
    reveal_strlit("web");
    reveal_strlit("system");
    assert(id.len() == 4 && "web"@.len() == 3 && "system"@.len() == 6);
    let web = web_results(text, h, engine, url_like);
    let system = system_commands(text, options);
    let matched = ranked_apps(apps, scores, h);
    lemma_web_results_are_web(text, h, engine, url_like, id);
    lemma_system_commands_are_system(text, options, options.len(), id);
    lemma_ranked_apps_are_apps(apps, scores, h, id);
    let middle = block(text, files, web);
    if files_first(text) {
        lemma_none_from_both(files, web, id);
    } else {
        lemma_none_from_both(web, files, id);
    }
    lemma_none_from_both(middle, system, id);
    lemma_none_from_both(middle + system, matched, id);
    let result = merged(text, apps, h, options, engine, Some(calc), files, url_like, scores);
    assert(head(text, Some(calc)) =~= seq![calc]);
    assert(result.skip(1) =~= middle + system + matched);
}

} // verus!
