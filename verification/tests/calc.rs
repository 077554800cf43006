use centrum_launcher::calc::{
    check_calc, is_calc_query, outcome, rewrite, wants_plain, CalcCache, CalcStep,
};

#[test]
fn calculation_scenario_two_plus_two() {
    let mut cache = CalcCache::new();
    match check_calc(&mut cache, "2+2", 1_000_000_000) {
        CalcStep::Evaluate(expr) => assert_eq!(expr, "2+2"),
        other => panic!("unexpected step {:?}", other),
    }
    assert!(!wants_plain("2+2", Some("4\n")));
    let item = cache.complete("2+2", Some("4\n"), None).expect("a candidate");
    assert_eq!(item.name, "4");
    assert_eq!(item.action, "COPY:4");
    assert_eq!(item.icon, "\u{f00ec}");
    assert_eq!(item.desktop_id, "calc");
}

#[test]
fn identical_query_is_answered_from_the_cache() {
    let mut cache = CalcCache::new();
    assert!(matches!(check_calc(&mut cache, "3*3", 5_000_000_000), CalcStep::Evaluate(_)));
    let first = cache.complete("3*3", Some("9"), None).expect("a candidate");
    for now in [5_000_000_001u64, 5_040_000_000, 9_000_000_000, 0] {
        match check_calc(&mut cache, "3*3", now) {
            CalcStep::Cached(Some(again)) => {
                assert_eq!(again.name, first.name);
                assert_eq!(again.action, first.action);
            }
            other => panic!("unexpected step {:?}", other),
        }
    }
    assert_eq!(cache.last_time, Some(5_000_000_000));
}

#[test]
fn another_query_waits_for_fifty_milliseconds() {
    let mut cache = CalcCache::new();
    assert!(matches!(check_calc(&mut cache, "1+1", 1_000_000_000), CalcStep::Evaluate(_)));
    cache.complete("1+1", Some("2"), None);
    match check_calc(&mut cache, "1+12", 1_049_999_999) {
        CalcStep::Cached(Some(item)) => assert_eq!(item.name, "2"),
        other => panic!("unexpected step {:?}", other),
    }
    match check_calc(&mut cache, "1+12", 1_050_000_000) {
        CalcStep::Evaluate(expr) => assert_eq!(expr, "1+12"),
        other => panic!("unexpected step {:?}", other),
    }
    assert_eq!(cache.last_query, "1+12");
    assert_eq!(cache.last_time, Some(1_050_000_000));
}

#[test]
fn queries_that_are_no_calculation() {
    for q in ["/2", ":22", "?22", "2", "", "ab", "anything"] {
        assert!(!is_calc_query(q), "{:?}", q);
        let mut cache = CalcCache::new();
        assert!(matches!(check_calc(&mut cache, q, 1), CalcStep::Rejected));
    }
    for q in ["22", "a1", "~1", "#12", "2+2"] {
        assert!(is_calc_query(q), "{:?}", q);
    }
}

#[test]
fn expressions_are_rewritten() {
    assert_eq!(rewrite("20% of 50"), "20% * 50");
    assert_eq!(rewrite("20%  50"), "20% * 50");
    assert_eq!(rewrite("20% 50 3"), "20% * 50 * 3");
    assert_eq!(rewrite("20% + 50"), "20% + 50");
    assert_eq!(rewrite("half of 3 of 4"), "half * 3 * 4");
    assert_eq!(rewrite("1 2"), "1 2");
}

#[test]
fn results_that_are_not_accepted() {
    assert!(outcome("2+2", None, None).is_none());
    assert!(outcome("2+2", Some("  \n"), None).is_none());
    assert!(outcome("22", Some("22\n"), None).is_none());
    assert!(outcome("0*5", Some("0"), None).is_none());
    assert!(outcome("7/2x", Some("rem(7, 2)"), None).is_none());
    let mut cache = CalcCache::new();
    assert!(matches!(check_calc(&mut cache, "0*5", 100), CalcStep::Evaluate(_)));
    assert!(cache.complete("0*5", Some("0"), None).is_none());
    assert!(matches!(check_calc(&mut cache, "0*5", 100_000_000_000), CalcStep::Cached(None)));
}

#[test]
fn sums_are_shown_one_term_on_a_line() {
    let (name, action) = outcome("x", Some("1 m + 20 cm + 3 mm\n"), None).expect("an outcome");
    assert_eq!(name, "1 m\n20 cm\n3 mm");
    assert_eq!(action, "COPY:1 m + 20 cm + 3 mm");
}

#[test]
fn scientific_results_gain_a_plain_form() {
    assert!(wants_plain("2^80", Some("1.2089258E24\n")));
    assert!(!wants_plain("2^8", Some("256")));
    assert!(!wants_plain("E1", Some("E1")));
    let (name, action) =
        outcome("2^80", Some("1.2089258E24\n"), Some(" 1208925819614629174706176 \n")).expect("an outcome");
    assert_eq!(name, "1.2089258E24\n(1208925819614629174706176)");
    assert_eq!(action, "COPY:1208925819614629174706176");
    let (name, action) = outcome("2^80", Some("1.2E24"), Some("1.2E24")).expect("an outcome");
    assert_eq!(name, "1.2E24");
    assert_eq!(action, "COPY:1.2E24");
    let long = "9".repeat(101);
    let (name, action) = outcome("2^80", Some("1.2E24"), Some(&long)).expect("an outcome");
    assert_eq!(name, "1.2E24");
    assert_eq!(action, "COPY:1.2E24");
    let limit = "9".repeat(100);
    let (_, action) = outcome("2^80", Some("1.2E24"), Some(&limit)).expect("an outcome");
    assert_eq!(action, format!("COPY:{}", limit));
    let (name, _) = outcome("2^8", Some("256"), Some("256.0")).expect("an outcome");
    assert_eq!(name, "256");
}
