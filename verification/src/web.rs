//! The web provider: search-engine queries, links, and what the history
//! remembers of both.

use vstd::prelude::*;
use crate::candidate::{has_name, item_views, name_listed, none_from, plain_from, plain_item,
    AppItem, AppItemView};
use crate::history::{Entries, History};
use crate::ranking::{ints, order_of, rank_views, sort_order, Rank, RankView};
use crate::text::{append, chars_of, concat, contains, contains_sub, find, find_from, has_prefix,
    lower, lowercase, remove_prefixes, slice, split, split_on, starts_with, str_eq,
    strip_prefixes, swap_char, swapped, trim, trimmed};

verus! {

/// A compiled regular expression of the `regex` crate.
#[verifier::external_type_specification]
#[verifier::external_body]
pub struct ExRegex(regex::Regex);

/// What a compiled regular expression holds: the texts in which it finds a
/// match, as `regex::Regex::is_match` decides it.
pub uninterp spec fn regex_language(re: regex::Regex) -> Set<Seq<char>>;

/// Whether the regular expression that `pattern` compiles to finds a match
/// in `text`; `None` if the pattern does not compile, as `regex::Regex::new`
/// decides it.
pub uninterp spec fn regex_search(pattern: Seq<char>, text: Seq<char>) -> Option<bool>;

/// Calls `regex::Regex::new`.  The compiled expression depends on the
/// pattern alone: it finds a match in exactly the texts of which
/// `regex_search` says so; where the pattern does not compile, there is
/// none.
#[verifier::external_body]
pub(crate) fn regex_compile(pattern: &str) -> (r: Option<regex::Regex>)
    ensures
        match r {
            Some(re) => forall|text: Seq<char>|
                regex_search(pattern@, text) == Some(#[trigger] regex_language(re).contains(text)),
            None => forall|text: Seq<char>| (#[trigger] regex_search(pattern@, text)) is None,
        },
{
    match regex::Regex::new(pattern) {
        Ok(re) => Some(re),
        Err(_) => None,
    }
}

/// Calls `regex::Regex::is_match`: whether the expression finds a match in
/// the text.
#[verifier::external_body]
pub(crate) fn regex_is_match(re: &regex::Regex, text: &str) -> (r: bool)
    ensures
        r == regex_language(*re).contains(text@),
{
    re.is_match(text)
}

/// The shape of a bare link: an optional scheme, a dotted host and an
/// optional path.
pub open spec fn url_pattern() -> Seq<char> {
    "^(https?://)?([\\w-]+\\.)+[\\w-]+(/[-\u{ffff}\\w\\-. /?%&=]*)?$"@
}

/// Whether `query` has the shape of a bare link.
pub open spec fn url_shaped(query: Seq<char>) -> bool {
    regex_search(url_pattern(), query) == Some(true)
}

/// The address to which a search engine takes its query.
pub open spec fn engine_base(engine: Seq<char>) -> Seq<char> {
    if engine == "startpage"@ {
        "https://www.startpage.com/sp/search?q="@
    } else if engine == "duckduckgo"@ || engine == "ddg"@ {
        "https://duckduckgo.com/?q="@
    } else if engine == "bing"@ {
        "https://www.bing.com/search?q="@
    } else if engine == "ecosia"@ {
        "https://www.ecosia.org/search?q="@
    } else if engine == "qwant"@ {
        "https://www.qwant.com/?q="@
    } else {
        "https://www.google.com/search?q="@
    }
}

/// The name under which a search engine is shown.
pub open spec fn engine_name(engine: Seq<char>) -> Seq<char> {
    if engine == "startpage"@ {
        "StartPage"@
    } else if engine == "duckduckgo"@ || engine == "ddg"@ {
        "DuckDuckGo"@
    } else if engine == "bing"@ {
        "Bing"@
    } else if engine == "ecosia"@ {
        "Ecosia"@
    } else if engine == "qwant"@ {
        "Qwant"@
    } else {
        "Google"@
    }
}

/// The two things the web provider looks up in the history.
#[derive(Clone, Copy, PartialEq, Eq, Structural, Debug)]
pub enum Lookup {
    /// Earlier searches: actions with a `?q=` in them.
    Searches,
    /// Earlier links: actions that open an `http` address without a `?q=`.
    Links,
}

/// `address` with `https://` in front unless it names a scheme itself.
pub open spec fn with_scheme(address: Seq<char>) -> Seq<char> {
    if contains_sub(address, "://"@) {
        address
    } else {
        "https://"@ + address
    }
}

/// The candidate for what the user is typing: a search for `text` with the
/// engine, or the link `text`.  There is none for an empty text.
pub open spec fn live_candidate(lookup: Lookup, text: Seq<char>, engine: Seq<char>) -> Seq<
    AppItemView,
> {
    if text.len() == 0 {
        Seq::empty()
    } else {
        match lookup {
            Lookup::Searches => seq![
                plain_item(
                    "Search "@ + engine_name(engine) + " for '"@ + text + "'"@,
                    "xdg-open "@ + (engine_base(engine) + swapped(text, ' ', '+')),
                    "\u{f002}"@,
                    "web"@,
                ),
            ],
            Lookup::Links => seq![
                plain_item(
                    "Open '"@ + text + "'"@,
                    "xdg-open "@ + with_scheme(text),
                    "\u{f059f}"@,
                    "web"@,
                ),
            ],
        }
    }
}

/// Whether the history key `key` is listed for the typed text `text`: it
/// must be of the kind looked up, and contain the text, compared in lower
/// case.
pub open spec fn is_hit(lookup: Lookup, key: Seq<char>, text: Seq<char>) -> bool {
    let of_kind = match lookup {
        Lookup::Searches => contains_sub(key, "?q="@),
        Lookup::Links => starts_with(key, "xdg-open http"@) && !contains_sub(key, "?q="@),
    };
    of_kind && (lowercase(text).len() == 0 || contains_sub(lowercase(key), lowercase(text)))
}

/// The hits among the first `n` entries of the history, in its order.
pub open spec fn hits_upto(lookup: Lookup, h: Entries, text: Seq<char>, n: nat) -> Entries
    decreases n,
{
    if n == 0 {
        Seq::empty()
    } else {
        let before = hits_upto(lookup, h, text, (n - 1) as nat);
        if is_hit(lookup, h[n - 1].0, text) {
            before.push(h[n - 1])
        } else {
            before
        }
    }
}

/// The hits of the history, in its order.
pub open spec fn hits(lookup: Lookup, h: Entries, text: Seq<char>) -> Entries {
    hits_upto(lookup, h, text, h.len())
}

/// The ranks by which hits are ordered.  Searches go by count and then by
/// key, and are listed from the last rank to the first; links go by higher
/// count, and equal counts keep the order of the history.
pub open spec fn hit_ranks(lookup: Lookup, hits: Entries) -> Seq<RankView> {
    Seq::new(
        hits.len(),
        |i: int|
            match lookup {
                Lookup::Searches => RankView {
                    score: 0,
                    uses: 0,
                    demerit: hits[i].1 as u64,
                    depth: 0,
                    label: hits[i].0,
                },
                Lookup::Links => RankView {
                    score: 0,
                    uses: hits[i].1,
                    demerit: 0,
                    depth: 0,
                    label: Seq::empty(),
                },
            },
    )
}

/// The order in which hits are listed.  Searches: higher counts first, and
/// among equal counts the lexicographically greater key first.  Links:
/// higher counts first, equal counts in the order of the history.
pub open spec fn hit_order(lookup: Lookup, hits: Entries) -> Seq<int> {
    match lookup {
        Lookup::Searches => sort_order(hit_ranks(lookup, hits)).reverse(),
        Lookup::Links => sort_order(hit_ranks(lookup, hits)),
    }
}

/// What a remembered search shows: what follows the first `?q=` up to the
/// next `&`, with spaces for `+`.
pub open spec fn shown_query(key: Seq<char>) -> Seq<char> {
    match find_from(key, "?q="@, 0) {
        Some(pos) => swapped(split_on(key.skip(pos + "?q="@.len()), '&')[0], '+', ' '),
        None => Seq::empty(),
    }
}

/// The name under which a hit is listed.
pub open spec fn hit_name(lookup: Lookup, key: Seq<char>) -> Seq<char> {
    match lookup {
        Lookup::Searches => "Search: "@ + shown_query(key),
        Lookup::Links => strip_prefixes(
            strip_prefixes(strip_prefixes(key, "xdg-open "@), "https://"@),
            "http://"@,
        ),
    }
}

/// The candidate of a hit.  Its action is the history key itself.
pub open spec fn hit_item(lookup: Lookup, key: Seq<char>) -> AppItemView {
    plain_item(
        hit_name(lookup, key),
        key,
        match lookup {
            Lookup::Searches => "\u{f002}"@,
            Lookup::Links => "\u{f059f}"@,
        },
        "web"@,
    )
}

/// The most candidates that a search lists, the live one included.
pub const SEARCH_LIMIT: usize = 10;

/// The list after the first `n` hits, taken in `order`, have been gone
/// through: a hit is added unless its name is already listed or, for
/// searches, the list is full.
pub open spec fn listed_upto(
    lookup: Lookup,
    hits: Entries,
    order: Seq<int>,
    live: Seq<AppItemView>,
    n: nat,
) -> Seq<AppItemView>
    decreases n,
{
    if n == 0 {
        live
    } else {
        let before = listed_upto(lookup, hits, order, live, (n - 1) as nat);
        let key = hits[order[n - 1]].0;
        if (lookup == Lookup::Searches && before.len() >= SEARCH_LIMIT) || has_name(
            before,
            hit_name(lookup, key),
        ) {
            before
        } else {
            before.push(hit_item(lookup, key))
        }
    }
}

/// The candidates for a query that begins with `?` (searches) or `:`
/// (links): the live candidate for the text after the sign, then the hits
/// of the history.
pub open spec fn lookup_results(
    lookup: Lookup,
    query: Seq<char>,
    h: Entries,
    engine: Seq<char>,
) -> Seq<AppItemView> {
    let text = trimmed(query.skip(1));
    let found = hits(lookup, h, text);
    listed_upto(
        lookup,
        found,
        hit_order(lookup, found),
        live_candidate(lookup, text, engine),
        found.len(),
    )
}

/// The candidates of the web provider for `query`, where `url_like` says
/// whether the query has the shape of a bare link.
pub open spec fn web_results(
    query: Seq<char>,
    h: Entries,
    engine: Seq<char>,
    url_like: bool,
) -> Seq<AppItemView> {
    if starts_with(query, "?"@) {
        lookup_results(Lookup::Searches, query, h, engine)
    } else if starts_with(query, ":"@) {
        lookup_results(Lookup::Links, query, h, engine)
    } else if url_like || starts_with(query, "http"@) {
        seq![plain_item("Open Link"@, "xdg-open "@ + with_scheme(query), "\u{f059f}"@, "web"@)]
    } else {
        Seq::empty()
    }
}

/// A search lists at most `SEARCH_LIMIT` candidates, provided the live
/// candidates are no more than that.
pub proof fn lemma_search_is_capped(hits: Entries, order: Seq<int>, live: Seq<AppItemView>, n: nat)
    requires
        live.len() <= SEARCH_LIMIT,
    ensures
        listed_upto(Lookup::Searches, hits, order, live, n).len() <= SEARCH_LIMIT,
    decreases n,
{
    if n > 0 {
        lemma_search_is_capped(hits, order, live, (n - 1) as nat);
    }
}

/// No two candidates that a lookup adds to the live ones have the same name.
pub proof fn lemma_listed_names_distinct(
    lookup: Lookup,
    hits: Entries,
    order: Seq<int>,
    live: Seq<AppItemView>,
    n: nat,
)
    requires
        forall|i: int, j: int| 0 <= i < j < live.len() ==> live[i].name != live[j].name,
    ensures
        ({
            let all = listed_upto(lookup, hits, order, live, n);
            forall|i: int, j: int| 0 <= i < j < all.len() ==> all[i].name != all[j].name
        }),
    decreases n,
{
    if n > 0 {
        lemma_listed_names_distinct(lookup, hits, order, live, (n - 1) as nat);
        let before = listed_upto(lookup, hits, order, live, (n - 1) as nat);
        let all = listed_upto(lookup, hits, order, live, n);
        let key = hits[order[n - 1]].0;
        if all.len() > before.len() {
            assert forall|i: int, j: int| 0 <= i < j < all.len() implies all[i].name
                != all[j].name by {
                if j == before.len() {
                    assert(before[i] == all[i]);
                } else {
                    assert(before[i] == all[i] && before[j] == all[j]);
                }
            }
        }
    }
}

/// Every candidate of the web provider has the desktop identifier `web`.
pub proof fn lemma_web_results_are_web(
    query: Seq<char>,
    h: Entries,
    engine: Seq<char>,
    url_like: bool,
    id: Seq<char>,
)
    requires
        id != "web"@,
    ensures
        none_from(web_results(query, h, engine, url_like), id),
{
    if starts_with(query, "?"@) {
        let text = trimmed(query.skip(1));
        let found = hits(Lookup::Searches, h, text);
        lemma_listed_are_web(
            Lookup::Searches,
            found,
            hit_order(Lookup::Searches, found),
            live_candidate(Lookup::Searches, text, engine),
            found.len(),
            id,
        );
    } else if starts_with(query, ":"@) {
        let text = trimmed(query.skip(1));
        let found = hits(Lookup::Links, h, text);
        lemma_listed_are_web(
            Lookup::Links,
            found,
            hit_order(Lookup::Links, found),
            live_candidate(Lookup::Links, text, engine),
            found.len(),
            id,
        );
    }
}

proof fn lemma_listed_are_web(
    lookup: Lookup,
    hits: Entries,
    order: Seq<int>,
    live: Seq<AppItemView>,
    n: nat,
    id: Seq<char>,
)
    requires
        id != "web"@,
        none_from(live, id),
    ensures
        none_from(listed_upto(lookup, hits, order, live, n), id),
    decreases n,
{
    if n > 0 {
        lemma_listed_are_web(lookup, hits, order, live, (n - 1) as nat, id);
        let before = listed_upto(lookup, hits, order, live, (n - 1) as nat);
        let all = listed_upto(lookup, hits, order, live, n);
        assert forall|i: int| 0 <= i < all.len() implies (#[trigger] all[i]).desktop_id != id by {
            if i < before.len() {
                assert(all[i] == before[i]);
            }
        }
    }
}

fn engine_parts(engine: &str) -> (r: (Vec<char>, Vec<char>))
    ensures
        r.0@ == engine_base(engine@),
        r.1@ == engine_name(engine@),
{
    if str_eq(engine, "startpage") {
        (chars_of("https://www.startpage.com/sp/search?q="), chars_of("StartPage"))
    } else if str_eq(engine, "duckduckgo") || str_eq(engine, "ddg") {
        (chars_of("https://duckduckgo.com/?q="), chars_of("DuckDuckGo"))
    } else if str_eq(engine, "bing") {
        (chars_of("https://www.bing.com/search?q="), chars_of("Bing"))
    } else if str_eq(engine, "ecosia") {
        (chars_of("https://www.ecosia.org/search?q="), chars_of("Ecosia"))
    } else if str_eq(engine, "qwant") {
        (chars_of("https://www.qwant.com/?q="), chars_of("Qwant"))
    } else {
        (chars_of("https://www.google.com/search?q="), chars_of("Google"))
    }
}

fn add_scheme(address: &Vec<char>) -> (r: Vec<char>)
    ensures
        r@ == with_scheme(address@),
{
    if contains(address, &chars_of("://")) {
        slice(address, 0, address.len())
    } else {
        concat(&chars_of("https://"), address)
    }
}

fn live_item(lookup: Lookup, text: &Vec<char>, engine: &str) -> (r: Vec<AppItem>)
    ensures
        item_views(r@) == live_candidate(lookup, text@, engine@),
{
    let mut out: Vec<AppItem> = Vec::new();
    if text.len() == 0 {
        assert(item_views(out@) =~= Seq::<AppItemView>::empty());
        return out;
    }
    match lookup {
        Lookup::Searches => {
            let (base, shown) = engine_parts(engine);
            let mut name = chars_of("Search ");
            append(&mut name, &shown);
            append(&mut name, &chars_of(" for '"));
            append(&mut name, text);
            append(&mut name, &chars_of("'"));
            let address = concat(&base, &swap_char(text, ' ', '+'));
            let action = concat(&chars_of("xdg-open "), &address);
            out.push(plain_from(&name, &action, "\u{f002}", "web"));
        },
        Lookup::Links => {
            let mut name = chars_of("Open '");
            append(&mut name, text);
            append(&mut name, &chars_of("'"));
            let action = concat(&chars_of("xdg-open "), &add_scheme(text));
            out.push(plain_from(&name, &action, "\u{f059f}", "web"));
        },
    }
    assert(item_views(out@) =~= live_candidate(lookup, text@, engine@));
    out
}

fn key_is_hit(lookup: Lookup, key: &Vec<char>, text_low: &Vec<char>) -> (r: bool)
    ensures
        forall|text: Seq<char>| text_low@ == lowercase(text) ==> r == is_hit(lookup, key@, text),
{
    let marker = chars_of("?q=");
    let of_kind = match lookup {
        Lookup::Searches => contains(key, &marker),
        Lookup::Links => has_prefix(key, &chars_of("xdg-open http")) && !contains(key, &marker),
    };
    of_kind && (text_low.len() == 0 || contains(&lower(key), text_low))
}

/// One hit: a key of the history with its count.
struct Hit {
    key: Vec<char>,
    count: u32,
}

spec fn hit_views(hits: Seq<Hit>) -> Entries {
    Seq::new(hits.len(), |i: int| (hits[i].key@, hits[i].count))
}

fn collect_hits(lookup: Lookup, history: &History, text: &Vec<char>) -> (r: Vec<Hit>)
    ensures
        hit_views(r@) == hits(lookup, history@, text@),
{
    let text_low = lower(text);
    let mut out: Vec<Hit> = Vec::new();
    let mut i: usize = 0;
    assert(hit_views(out@) =~= hits_upto(lookup, history@, text@, 0));
    while i < history.len()
        invariant
            i <= history@.len(),
            text_low@ == lowercase(text@),
            hit_views(out@) == hits_upto(lookup, history@, text@, i as nat),
        decreases history@.len() - i,
    {
        let key = chars_of(history.key_at(i).as_str());
        let ghost before = out@;
        if key_is_hit(lookup, &key, &text_low) {
            out.push(Hit { key, count: history.count_at(i) });
            assert(hit_views(out@) =~= hit_views(before).push(history@[i as int]));
        }
        i += 1;
    }
    out
}

fn rank_hits(lookup: Lookup, found: &Vec<Hit>) -> (r: Vec<Rank>)
    ensures
        rank_views(r@) == hit_ranks(lookup, hit_views(found@)),
{
    let mut out: Vec<Rank> = Vec::new();
    let mut i: usize = 0;
    while i < found.len()
        invariant
            i <= found.len(),
            out@.len() == i,
            forall|j: int| 0 <= j < i ==> (#[trigger] out@[j])@ == hit_ranks(lookup, hit_views(found@))[j],
        decreases found.len() - i,
    {
        let rank = match lookup {
            Lookup::Searches => Rank {
                score: 0,
                uses: 0,
                demerit: found[i].count as u64,
                depth: 0,
                label: slice(&found[i].key, 0, found[i].key.len()),
            },
            Lookup::Links => Rank { score: 0, uses: found[i].count, demerit: 0, depth: 0, label: Vec::new() },
        };
        proof {
            assert(found@[i as int].key@.subrange(0, found@[i as int].key@.len() as int)
                =~= found@[i as int].key@);
            assert(rank.label@ =~= hit_ranks(lookup, hit_views(found@))[i as int].label);
        }
        out.push(rank);
        i += 1;
    }
    assert(rank_views(out@) =~= hit_ranks(lookup, hit_views(found@)));
    out
}

fn reversed(order: &Vec<usize>) -> (r: Vec<usize>)
    ensures
        ints(r@) == ints(order@).reverse(),
        r@.len() == order@.len(),
        forall|i: int| 0 <= i < r@.len() ==> #[trigger] r@[i] == order@[order@.len() - 1 - i],
{
    let n: usize = order.len();
    let mut out: Vec<usize> = Vec::new();
    let mut i: usize = 0;
    while i < n
        invariant
            n == order.len(),
            i <= n,
            out@.len() == i,
            forall|j: int| 0 <= j < i ==> #[trigger] out@[j] == order@[n - 1 - j],
        decreases n - i,
    {
        out.push(order[n - 1 - i]);
        i += 1;
    }
    assert(ints(out@) =~= ints(order@).reverse());
    out
}

fn shown_part(key: &Vec<char>) -> (r: Vec<char>)
    ensures
        r@ == shown_query(key@),
{
    let marker = chars_of("?q=");
    match find(key, &marker, 0) {
        Some(pos) => {
            assert(pos + marker@.len() <= key@.len());
            assert(key@.len() == key.len());
            let value = slice(key, pos + marker.len(), key.len());
            assert(value@ =~= key@.skip(pos + "?q="@.len()));
            let pieces = split(&value, '&');
            assert(crate::text::views(pieces@)[0] == pieces@[0]@);
            swap_char(&pieces[0], '+', ' ')
        },
        None => {
            let e: Vec<char> = Vec::new();
            assert(e@ =~= Seq::<char>::empty());
            e
        },
    }
}

fn name_of_hit(lookup: Lookup, key: &Vec<char>) -> (r: Vec<char>)
    ensures
        r@ == hit_name(lookup, key@),
{
    match lookup {
        Lookup::Searches => concat(&chars_of("Search: "), &shown_part(key)),
        Lookup::Links => {
            let a = remove_prefixes(key, &chars_of("xdg-open "));
            let b = remove_prefixes(&a, &chars_of("https://"));
            remove_prefixes(&b, &chars_of("http://"))
        },
    }
}

fn lookup_candidates(lookup: Lookup, query: &Vec<char>, history: &History, engine: &str) -> (r:
    Vec<AppItem>)
    requires
        query@.len() >= 1,
    ensures
        item_views(r@) == lookup_results(lookup, query@, history@, engine@),
{
    let rest = slice(query, 1, query.len());
    assert(rest@ =~= query@.skip(1));
    let text = trim(&rest);
    let found = collect_hits(lookup, history, &text);
    let ranks = rank_hits(lookup, &found);
    let sorted = order_of(&ranks);
    let order = match lookup {
        Lookup::Searches => reversed(&sorted),
        Lookup::Links => sorted,
    };
    let ghost fv = hit_views(found@);
    let ghost live = live_candidate(lookup, text@, engine@);
    assert(ints(order@) == hit_order(lookup, fv));
    assert(forall|i: int| 0 <= i < order@.len() ==> (#[trigger] order@[i]) < found@.len());
    let mut out = live_item(lookup, &text, engine);
    let mut i: usize = 0;
    while i < order.len()
        invariant
            i <= order.len(),
            order@.len() == found@.len(),
            fv == hit_views(found@),
            forall|k: int| 0 <= k < order@.len() ==> (#[trigger] order@[k]) < found@.len(),
            item_views(out@) == listed_upto(lookup, fv, ints(order@), live, i as nat),
        decreases order.len() - i,
    {
        let key = &found[order[i]].key;
        let name = name_of_hit(lookup, key);
        let full = match lookup {
            Lookup::Searches => out.len() >= SEARCH_LIMIT,
            Lookup::Links => false,
        };
        let ghost before = out@;
        assert(fv[ints(order@)[i as int]].0 == key@);
        if !full && !name_listed(&out, &name) {
            out.push(
                plain_from(
                    &name,
                    key,
                    match lookup {
                        Lookup::Searches => "\u{f002}",
                        Lookup::Links => "\u{f059f}",
                    },
                    "web",
                ),
            );
            assert(item_views(out@) =~= item_views(before).push(hit_item(lookup, key@)));
        }
        i += 1;
    }
    out
}

/// The candidates of the web provider for `query`, where `url_like` says
/// whether the query has the shape of a bare link.
pub fn web_candidates(query: &str, history: &History, search_engine: &str, url_like: bool) -> (r:
    Vec<AppItem>)
    ensures
        item_views(r@) == web_results(query@, history@, search_engine@, url_like),
{
    let q = chars_of(query);
    if has_prefix(&q, &chars_of("?")) {
        proof {
            reveal_strlit("?");
        }
        lookup_candidates(Lookup::Searches, &q, history, search_engine)
    } else if has_prefix(&q, &chars_of(":")) {
        proof {
            reveal_strlit(":");
        }
        lookup_candidates(Lookup::Links, &q, history, search_engine)
    } else if url_like || has_prefix(&q, &chars_of("http")) {
        let action = concat(&chars_of("xdg-open "), &add_scheme(&q));
        let mut out: Vec<AppItem> = Vec::new();
        out.push(plain_from(&chars_of("Open Link"), &action, "\u{f059f}", "web"));
        assert(item_views(out@) =~= web_results(query@, history@, search_engine@, url_like));
        out
    } else {
        let out: Vec<AppItem> = Vec::new();
        assert(item_views(out@) =~= Seq::<AppItemView>::empty());
        out
    }
}

/// The expression for the shape of a bare link, compiled.  It is compiled
/// once, where the launcher starts, and handed to [`check_web`].
pub fn url_regex() -> (r: Option<regex::Regex>)
    ensures
        match r {
            Some(re) => forall|text: Seq<char>|
                url_shaped(text) == #[trigger] regex_language(re).contains(text),
            None => forall|text: Seq<char>| !#[trigger] url_shaped(text),
        },
{
    let r = regex_compile("^(https?://)?([\\w-]+\\.)+[\\w-]+(/[-\u{ffff}\\w\\-. /?%&=]*)?$");
    proof {
        if r is Some {
            assert forall|text: Seq<char>|
                url_shaped(text) == #[trigger] regex_language(r->0).contains(text) by {
                assert(regex_search(url_pattern(), text) == Some(
                    regex_language(r->0).contains(text),
                ));
            }
        } else {
            assert forall|text: Seq<char>| !#[trigger] url_shaped(text) by {
                assert(regex_search(url_pattern(), text) is None);
            }
        }
    }
    r
}

/// The candidates of the web provider for `query`, where `url_re` is the
/// expression for the shape of a bare link.
pub fn check_web(query: &str, history: &History, url_re: &regex::Regex, search_engine: &str) -> (r:
    Vec<AppItem>)
    ensures
        item_views(r@) == web_results(
            query@,
            history@,
            search_engine@,
            regex_language(*url_re).contains(query@),
        ),
{
    let url_like = regex_is_match(url_re, query);
    web_candidates(query, history, search_engine, url_like)
}

} // verus!
