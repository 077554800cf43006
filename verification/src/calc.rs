//! The calculator provider.
//!
//! The evaluator is an outside program.  The provider decides whether a
//! query is worth evaluating, answers from its cache while the user types,
//! rewrites the query for the evaluator, and turns what the evaluator prints
//! into a candidate.  The caller runs the evaluator in between.

use vstd::prelude::*;
use crate::candidate::{plain_item, AppItem, AppItemView};
use crate::text::{append, chars_of, concat, contains, contains_digit, contains_sub, copy_str,
    has_char, has_digit, has_prefix, join, joined, replace, replaced, same, split_whitespace,
    starts_with, str_eq, string_of, trim, trimmed, words};

verus! {

/// The time, in nanoseconds, within which a new query is answered from the
/// cache: 50 milliseconds.
pub const DEBOUNCE_NANOS: u64 = 50_000_000;

/// The longest plain form, in characters, that is shown for a result in
/// scientific notation.
pub const PLAIN_LIMIT: usize = 100;

/// What the calculator remembers of its last evaluation: when it was, for
/// which query, and the name and action of the candidate that came of it.
#[derive(Clone, Debug)]
pub struct CalcCache {
    pub last_time: Option<u64>,
    pub last_query: String,
    pub last_result: Option<(String, String)>,
}

/// The mathematical value of a [`CalcCache`].
pub struct CalcCacheView {
    pub last_time: Option<u64>,
    pub last_query: Seq<char>,
    pub last_result: Option<(Seq<char>, Seq<char>)>,
}

impl View for CalcCache {
    type V = CalcCacheView;

    open spec fn view(&self) -> CalcCacheView {
        CalcCacheView {
            last_time: self.last_time,
            last_query: self.last_query@,
            last_result: match self.last_result {
                Some((name, action)) => Some((name@, action@)),
                None => None,
            },
        }
    }
}

/// What the caller of [`check_calc`] has to do next.
#[derive(Clone, Debug)]
pub enum CalcStep {
    /// The query is no calculation: there is no candidate.
    Rejected,
    /// The answer comes from the cache: this is the candidate, if any.
    Cached(Option<AppItem>),
    /// Run the evaluator on this expression and hand what it prints to
    /// [`CalcCache::complete`].
    Evaluate(String),
}

/// The mathematical value of a [`CalcStep`].
pub enum CalcStepView {
    Rejected,
    Cached(Option<AppItemView>),
    Evaluate(Seq<char>),
}

impl View for CalcStep {
    type V = CalcStepView;

    open spec fn view(&self) -> CalcStepView {
        match *self {
            CalcStep::Rejected => CalcStepView::Rejected,
            CalcStep::Cached(item) => CalcStepView::Cached(
                match item {
                    Some(i) => Some(i@),
                    None => None,
                },
            ),
            CalcStep::Evaluate(e) => CalcStepView::Evaluate(e@),
        }
    }
}

/// Whether a query is handed to the calculator at all: it does not begin
/// with `/`, `:` or `?`, has two characters or more, and a digit among them.
pub open spec fn is_calculation(query: Seq<char>) -> bool {
    !starts_with(query, "/"@) && !starts_with(query, ":"@) && !starts_with(query, "?"@)
        && query.len() >= 2 && has_digit(query)
}

/// The candidate for a name and an action of the calculator.
pub open spec fn calc_item(result: (Seq<char>, Seq<char>)) -> AppItemView {
    plain_item(result.0, result.1, "\u{f00ec}"@, "calc"@)
}

/// The candidate that the cache holds.
pub open spec fn cached_item(cache: CalcCacheView) -> Option<AppItemView> {
    match cache.last_result {
        Some(r) => Some(calc_item(r)),
        None => None,
    }
}

/// Whether a call at the time `now` comes too soon after the last
/// evaluation to start another.
pub open spec fn is_debounced(cache: CalcCacheView, now: u64) -> bool {
    match cache.last_time {
        Some(t) => now < t || now - t < DEBOUNCE_NANOS,
        None => false,
    }
}

/// The expression that the evaluator is given for a query: `of` between
/// spaces becomes `*`, and a query with a percent sign and no operator has
/// its words multiplied.
pub open spec fn rewritten(query: Seq<char>) -> Seq<char> {
    let ci = replaced(query, " of "@, " * "@);
    if query.contains('%') && !contains_sub(ci, "*"@) && !contains_sub(ci, "/"@) && !contains_sub(
        ci,
        "+"@,
    ) && !contains_sub(ci, "-"@) {
        joined(words(ci), " * "@)
    } else {
        ci
    }
}

/// What a call for `query` at the time `now` answers.
pub open spec fn calc_step(cache: CalcCacheView, query: Seq<char>, now: u64) -> CalcStepView {
    if !is_calculation(query) {
        CalcStepView::Rejected
    } else if cache.last_query == query || is_debounced(cache, now) {
        CalcStepView::Cached(cached_item(cache))
    } else {
        CalcStepView::Evaluate(rewritten(query))
    }
}

/// The cache after a call for `query` at the time `now`: an evaluation
/// that starts is noted with its time and query.
pub open spec fn cache_after_step(cache: CalcCacheView, query: Seq<char>, now: u64) -> CalcCacheView {
    if calc_step(cache, query, now) is Evaluate {
        CalcCacheView { last_time: Some(now), last_query: query, last_result: cache.last_result }
    } else {
        cache
    }
}

/// The result that is accepted of what the evaluator printed: the output
/// without white space around it, unless it is empty, repeats the query, is
/// `0`, or holds `rem(`.  `None` stands for an evaluator that did not run.
pub open spec fn accepted(query: Seq<char>, output: Option<Seq<char>>) -> Option<Seq<char>> {
    match output {
        Some(o) => {
            let r = trimmed(o);
            if r.len() > 0 && r != query && r != "0"@ && !contains_sub(r, "rem("@) {
                Some(r)
            } else {
                None
            }
        },
        None => None,
    }
}

/// Whether the accepted result is in scientific notation, so that the
/// evaluator is asked again for the plain form.
pub open spec fn wants_plain_form(query: Seq<char>, output: Option<Seq<char>>) -> bool {
    accepted(query, output) is Some && accepted(query, output)->0.contains('E')
}

/// The plain form that is shown beside the result `r`: what the second run
/// printed, without white space around it, if it is not empty, differs from
/// `r` and is not longer than `PLAIN_LIMIT`.
pub open spec fn plain_form(r: Seq<char>, plain_output: Option<Seq<char>>) -> Option<Seq<char>> {
    match plain_output {
        Some(o) => {
            let ff = trimmed(o);
            if r.contains('E') && ff.len() > 0 && ff != r && ff.len() <= PLAIN_LIMIT {
                Some(ff)
            } else {
                None
            }
        },
        None => None,
    }
}

/// The name and the action of the candidate for what the evaluator printed.
/// A sum is shown with one term on each line.  A plain form is shown in
/// brackets on a line of its own, and is then what is copied.
pub open spec fn calc_outcome(
    query: Seq<char>,
    output: Option<Seq<char>>,
    plain_output: Option<Seq<char>>,
) -> Option<(Seq<char>, Seq<char>)> {
    match accepted(query, output) {
        Some(r) => {
            let shown = replaced(r, " + "@, "\n"@);
            match plain_form(r, plain_output) {
                Some(ff) => Some((shown + "\n("@ + ff + ")"@, "COPY:"@ + ff)),
                None => Some((shown, "COPY:"@ + r)),
            }
        },
        None => None,
    }
}

/// The cache after an evaluation has been completed.
pub open spec fn cache_after_complete(
    cache: CalcCacheView,
    query: Seq<char>,
    output: Option<Seq<char>>,
    plain_output: Option<Seq<char>>,
) -> CalcCacheView {
    CalcCacheView {
        last_time: cache.last_time,
        last_query: cache.last_query,
        last_result: calc_outcome(query, output, plain_output),
    }
}

/// The candidate that a completed evaluation gives.
pub open spec fn completed_item(
    query: Seq<char>,
    output: Option<Seq<char>>,
    plain_output: Option<Seq<char>>,
) -> Option<AppItemView> {
    match calc_outcome(query, output, plain_output) {
        Some(r) => Some(calc_item(r)),
        None => None,
    }
}

/// The view of an optional string slice.
pub open spec fn opt_view(s: Option<&str>) -> Option<Seq<char>> {
    match s {
        Some(t) => Some(t@),
        None => None,
    }
}

/// Whether `query` is handed to the calculator at all.
pub fn is_calc_query(query: &str) -> (r: bool)
    ensures
        r == is_calculation(query@),
{
    let q = chars_of(query);
    !has_prefix(&q, &chars_of("/")) && !has_prefix(&q, &chars_of(":")) && !has_prefix(
        &q,
        &chars_of("?"),
    ) && q.len() >= 2 && contains_digit(&q)
}

/// The expression that the evaluator is given for `query`.
pub fn rewrite(query: &str) -> (r: String)
    ensures
        r@ == rewritten(query@),
{
    let q = chars_of(query);
    let ci = replace(&q, &chars_of(" of "), &chars_of(" * "));
    if has_char(&q, '%') && !contains(&ci, &chars_of("*")) && !contains(&ci, &chars_of("/"))
        && !contains(&ci, &chars_of("+")) && !contains(&ci, &chars_of("-")) {
        let pieces = split_whitespace(&ci);
        string_of(&join(&pieces, &chars_of(" * ")))
    } else {
        string_of(&ci)
    }
}

fn accept(query: &str, output: Option<&str>) -> (r: Option<Vec<char>>)
    ensures
        match r {
            Some(v) => accepted(query@, opt_view(output)) == Some(v@),
            None => accepted(query@, opt_view(output)) is None,
        },
{
    match output {
        Some(o) => {
            let r = trim(&chars_of(o));
            if r.len() > 0 && !same(&r, &chars_of(query)) && !same(&r, &chars_of("0")) && !contains(
                &r,
                &chars_of("rem("),
            ) {
                Some(r)
            } else {
                None
            }
        },
        None => None,
    }
}

/// Whether, after the evaluator printed `output` for `query`, it is to be
/// run again for the plain form of the result.
pub fn wants_plain(query: &str, output: Option<&str>) -> (r: bool)
    ensures
        r == wants_plain_form(query@, opt_view(output)),
{
    match accept(query, output) {
        Some(r) => has_char(&r, 'E'),
        None => false,
    }
}

/// The name and action of the candidate for what the evaluator printed.
pub fn outcome(query: &str, output: Option<&str>, plain_output: Option<&str>) -> (r: Option<
    (String, String),
>)
    ensures
        match r {
            Some((name, action)) => calc_outcome(query@, opt_view(output), opt_view(plain_output))
                == Some((name@, action@)),
            None => calc_outcome(query@, opt_view(output), opt_view(plain_output)) is None,
        },
{
    match accept(query, output) {
        Some(r) => {
            let shown = replace(&r, &chars_of(" + "), &chars_of("\n"));
            let plain: Option<Vec<char>> = match plain_output {
                Some(o) => {
                    let ff = trim(&chars_of(o));
                    if has_char(&r, 'E') && ff.len() > 0 && !same(&ff, &r) && ff.len()
                        <= PLAIN_LIMIT {
                        Some(ff)
                    } else {
                        None
                    }
                },
                None => None,
            };
            match plain {
                Some(ff) => {
                    let mut name = shown;
                    append(&mut name, &chars_of("\n("));
                    append(&mut name, &ff);
                    append(&mut name, &chars_of(")"));
                    let action = concat(&chars_of("COPY:"), &ff);
                    Some((string_of(&name), string_of(&action)))
                },
                None => {
                    let action = concat(&chars_of("COPY:"), &r);
                    Some((string_of(&shown), string_of(&action)))
                },
            }
        },
        None => None,
    }
}

fn item_for(result: &Option<(String, String)>) -> (r: Option<AppItem>)
    ensures
        match r {
            Some(item) => match *result {
                Some((name, action)) => item@ == calc_item((name@, action@)),
                None => false,
            },
            None => *result is None,
        },
{
    match result {
        Some((name, action)) => Some(
            AppItem::plain(name.as_str(), action.as_str(), "\u{f00ec}", "calc"),
        ),
        None => None,
    }
}

impl CalcCache {
    /// The cache before any evaluation.
    pub fn new() -> (c: CalcCache)
        ensures
            c@ == (CalcCacheView {
                last_time: None,
                last_query: Seq::<char>::empty(),
                last_result: None,
            }),
    {
        CalcCache { last_time: None, last_query: String::new(), last_result: None }
    }

    /// Completes the evaluation of `query`: `output` is what the evaluator
    /// printed, `plain_output` what it printed when run again for the plain
    /// form, each `None` if that run did not take place or failed.  The
    /// candidate is returned and remembered.
    pub fn complete(&mut self, query: &str, output: Option<&str>, plain_output: Option<&str>) -> (r:
        Option<AppItem>)
        ensures
            final(self)@ == cache_after_complete(
                old(self)@,
                query@,
                opt_view(output),
                opt_view(plain_output),
            ),
            match r {
                Some(item) => completed_item(query@, opt_view(output), opt_view(plain_output))
                    == Some(item@),
                None => completed_item(query@, opt_view(output), opt_view(plain_output)) is None,
            },
    {
        let result = outcome(query, output, plain_output);
        let item = item_for(&result);
        self.last_result = result;
        item
    }
}

/// Answers a query at the time `now`, in nanoseconds on a clock that does
/// not run backwards: with nothing, from the cache, or by asking for an
/// evaluation, which is then noted in the cache.
pub fn check_calc(cache: &mut CalcCache, query: &str, now: u64) -> (step: CalcStep)
    ensures
        step@ == calc_step(old(cache)@, query@, now),
        final(cache)@ == cache_after_step(old(cache)@, query@, now),
{
    if !is_calc_query(query) {
        return CalcStep::Rejected;
    }
    let debounced = match cache.last_time {
        Some(t) => now < t || now - t < DEBOUNCE_NANOS,
        None => false,
    };
    if str_eq(cache.last_query.as_str(), query) || debounced {
        return CalcStep::Cached(item_for(&cache.last_result));
    }
    cache.last_time = Some(now);
    cache.last_query = copy_str(query);
    CalcStep::Evaluate(rewrite(query))
}

/// A query that has just been answered is answered again from the cache,
/// with the same candidate and without another evaluation, whenever it is
/// asked again.  The first answer must not itself have been a debounced
/// answer for another query.
pub proof fn lemma_repeated_query_is_cached(
    cache: CalcCacheView,
    query: Seq<char>,
    first_time: u64,
    second_time: u64,
    output: Option<Seq<char>>,
    plain_output: Option<Seq<char>>,
)
    requires
        is_calculation(query),
        cache.last_query == query || !is_debounced(cache, first_time),
    ensures
        ({
            let first = calc_step(cache, query, first_time);
            let noted = cache_after_step(cache, query, first_time);
            let settled = if first is Evaluate {
                cache_after_complete(noted, query, output, plain_output)
            } else {
                noted
            };
            let first_answer = if first is Evaluate {
                completed_item(query, output, plain_output)
            } else {
                first->Cached_0
            };
            &&& calc_step(settled, query, second_time) == CalcStepView::Cached(first_answer)
            &&& cache_after_step(settled, query, second_time) == settled
        }),
{
}

/// Within the debounce time after an evaluation every calculation is
/// answered from the cache, whatever its text.
pub proof fn lemma_debounce(cache: CalcCacheView, query: Seq<char>, now: u64)
    requires
        is_calculation(query),
        cache.last_time is Some,
        cache.last_time->0 <= now < cache.last_time->0 + DEBOUNCE_NANOS,
    ensures
        calc_step(cache, query, now) == CalcStepView::Cached(cached_item(cache)),
        cache_after_step(cache, query, now) == cache,
{
}

} // verus!
