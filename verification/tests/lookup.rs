use sproot::lookup::parse_lookup;
use sproot::lookup::ParseError;
use sproot::query::QueryType;

#[test]
fn parse_abs_lookup() {
    let p = parse_lookup("avg abs 10m of cpu_a,cpu_b").unwrap();
    assert_eq!(p.aggr, "avg");
    assert_eq!(p.mode, QueryType::Abs);
    assert_eq!(p.window, "10m");
    assert_eq!(p.numerator, vec!["cpu_a".to_string(), "cpu_b".to_string()]);
    assert!(p.divisor.is_none());
}

#[test]
fn parse_pct_lookup() {
    let p = parse_lookup("avg pct 10m of a,b over c,d").unwrap();
    assert_eq!(p.aggr, "avg");
    assert_eq!(p.mode, QueryType::Pct);
    assert_eq!(p.window, "10m");
    assert_eq!(p.numerator, vec!["a".to_string(), "b".to_string()]);
    assert_eq!(p.divisor, Some(vec!["c".to_string(), "d".to_string()]));
}

#[test]
fn parse_pct_without_divisor_is_refused() {
    assert_eq!(
        parse_lookup("avg pct 10m of a,b").unwrap_err(),
        ParseError::MissingDivisor
    );
}

#[test]
fn parse_unknown_aggregate_is_refused() {
    assert_eq!(
        parse_lookup("xyz abs 10m of a").unwrap_err(),
        ParseError::InvalidAggregate
    );
}

#[test]
fn parse_unknown_mode_is_refused() {
    assert_eq!(
        parse_lookup("avg rel 10m of a").unwrap_err(),
        ParseError::InvalidMode
    );
}

#[test]
fn parse_too_few_tokens_is_refused() {
    assert_eq!(parse_lookup("").unwrap_err(), ParseError::TooFewTokens);
    assert_eq!(
        parse_lookup("avg abs 10m of").unwrap_err(),
        ParseError::TooFewTokens
    );
}

#[test]
fn parse_bad_window_is_refused() {
    assert_eq!(
        parse_lookup("avg abs tenminutes of a").unwrap_err(),
        ParseError::InvalidWindow
    );
    assert_eq!(
        parse_lookup("avg abs 10 of a").unwrap_err(),
        ParseError::InvalidWindow
    );
    assert_eq!(
        parse_lookup("avg abs 10x of a").unwrap_err(),
        ParseError::InvalidWindow
    );
    assert_eq!(
        parse_lookup("avg abs m10 of a").unwrap_err(),
        ParseError::InvalidWindow
    );
}

#[test]
fn parse_window_units() {
    for w in [
        "1m", "2h", "3d", "10minute", "15minutes", "1hour", "2hours", "1day", "7days",
    ] {
        let expr = format!("max abs {} of a", w);
        let p = parse_lookup(&expr).unwrap();
        assert_eq!(p.window, w);
    }
}

#[test]
fn parse_all_aggregates() {
    for a in ["avg", "sum", "min", "max", "count"] {
        let expr = format!("{} abs 5m of a", a);
        let p = parse_lookup(&expr).unwrap();
        assert_eq!(p.aggr, a);
    }
}

#[test]
fn parse_checks_mode_before_aggregate() {
    // Both the mode and the aggregate are wrong: the mode is reported.
    assert_eq!(
        parse_lookup("xyz rel 10m of a").unwrap_err(),
        ParseError::InvalidMode
    );
}
