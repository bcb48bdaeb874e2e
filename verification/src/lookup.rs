//! Parser for the lookup expression stored in an alert: the small
//! whitespace-separated language `<aggr> <mode> <window> of <columns>
//! [over <columns>]` that names what an alert aggregates and over which time
//! window.

use vstd::prelude::*;
use vstd::string::StrSliceExecFns;
use vstd::string::StringExecFns;

use crate::query::QueryType;
use crate::text::split_char;
use crate::text::split_on;
use crate::text::str_eq;

verus! {

/// Why a lookup expression was rejected.
#[derive(Debug, PartialEq, Eq, Structural, Clone, Copy)]
pub enum ParseError {
    /// Fewer than the five mandatory tokens.
    TooFewTokens,
    /// The second token is neither `pct` nor `abs`.
    InvalidMode,
    /// Mode `pct` without the trailing `over <columns>` (seven tokens).
    MissingDivisor,
    /// The first token is not one of `avg`, `sum`, `min`, `max`, `count`.
    InvalidAggregate,
    /// The third token is not digits followed by a time unit.
    InvalidWindow,
}

/// A lookup expression taken apart: aggregation function, mode, time window,
/// and the column lists the aggregate runs over.
#[derive(Debug, Clone)]
pub struct ParsedLookup {
    pub aggr: String,
    pub mode: QueryType,
    pub window: String,
    pub numerator: Vec<String>,
    pub divisor: Option<Vec<String>>,
}

/// Spec-level image of a `ParsedLookup`.
pub struct ParsedLookupView {
    pub aggr: Seq<char>,
    pub mode: QueryType,
    pub window: Seq<char>,
    pub numerator: Seq<Seq<char>>,
    pub divisor: Option<Seq<Seq<char>>>,
}

impl View for ParsedLookup {
    type V = ParsedLookupView;

    open spec fn view(&self) -> ParsedLookupView {
        ParsedLookupView {
            aggr: self.aggr@,
            mode: self.mode,
            window: self.window@,
            numerator: self.numerator.deep_view(),
            divisor: match self.divisor {
                Some(d) => Some(d.deep_view()),
                None => None,
            },
        }
    }
}

/// The aggregation functions an alert may ask for.
pub open spec fn valid_aggregate(t: Seq<char>) -> bool {
    t == "avg"@ || t == "sum"@ || t == "min"@ || t == "max"@ || t == "count"@
}

pub open spec fn is_digit(c: char) -> bool {
    c == '0' || c == '1' || c == '2' || c == '3' || c == '4' || c == '5' || c == '6' || c == '7'
        || c == '8' || c == '9'
}

/// Length of the run of digits the text starts with.
pub open spec fn digit_prefix_len(s: Seq<char>) -> int
    decreases s.len(),
{
    if s.len() == 0 {
        0
    } else if !is_digit(s[0]) {
        0
    } else {
        1 + digit_prefix_len(s.subrange(1, s.len() as int))
    }
}

/// The time units the window grammar accepts.
pub open spec fn valid_unit(u: Seq<char>) -> bool {
    u == "m"@ || u == "h"@ || u == "d"@ || u == "minute"@ || u == "minutes"@ || u == "hour"@ || u
        == "hours"@ || u == "day"@ || u == "days"@
}

/// A well-formed time window: one or more digits followed by a unit.
pub open spec fn valid_window(t: Seq<char>) -> bool {
    let d = digit_prefix_len(t);
    1 <= d <= t.len() && valid_unit(t.subrange(d, t.len() as int))
}

/// What parsing a lookup expression yields, checked in the order the parser
/// checks it: token count, mode, divisor presence, aggregate, window.
pub open spec fn parse_lookup_spec(s: Seq<char>) -> Result<ParsedLookupView, ParseError> {
    let toks = split_on(s, ' ');
    if toks.len() < 5 {
        Err(ParseError::TooFewTokens)
    } else if toks[1] != "pct"@ && toks[1] != "abs"@ {
        Err(ParseError::InvalidMode)
    } else if toks[1] == "pct"@ && toks.len() != 7 {
        Err(ParseError::MissingDivisor)
    } else if !valid_aggregate(toks[0]) {
        Err(ParseError::InvalidAggregate)
    } else if !valid_window(toks[2]) {
        Err(ParseError::InvalidWindow)
    } else {
        Ok(
            ParsedLookupView {
                aggr: toks[0],
                mode: if toks[1] == "pct"@ {
                    QueryType::Pct
                } else {
                    QueryType::Abs
                },
                window: toks[2],
                numerator: split_on(toks[4], ','),
                divisor: if toks[1] == "pct"@ {
                    Some(split_on(toks[6], ','))
                } else {
                    None
                },
            },
        )
    }
}

/// The digit prefix ends exactly where the first non-digit stands.
pub proof fn lemma_digit_prefix_len_at(s: Seq<char>, k: int)
    requires
        0 <= k <= s.len(),
        forall|j: int| 0 <= j < k ==> is_digit(s[j]),
        k < s.len() ==> !is_digit(s[k]),
    ensures
        digit_prefix_len(s) == k,
    decreases k,
{
    if s.len() == 0 {
    } else if k == 0 {
    } else {
        let t = s.subrange(1, s.len() as int);
        lemma_digit_prefix_len_at(t, k - 1);
    }
}

fn is_digit_exec(c: char) -> (b: bool)
    ensures
        b == is_digit(c),
{
    match c {
        '0' | '1' | '2' | '3' | '4' | '5' | '6' | '7' | '8' | '9' => true,
        _ => false,
    }
}

/// Does `t` match the window grammar?
pub fn check_window(t: &str) -> (b: bool)
    ensures
        b == valid_window(t@),
{
    let n = t.unicode_len();
    let mut d: usize = 0;
    while d < n && is_digit_exec(t.get_char(d))
        invariant
            0 <= d <= n,
            n == t@.len(),
            forall|j: int| 0 <= j < d ==> is_digit(t@[j]),
        decreases n - d,
    {
        d = d + 1;
    }
    proof {
        lemma_digit_prefix_len_at(t@, d as int);
    }
    if d == 0 {
        return false;
    }
    let unit = t.substring_char(d, n);
    let ok = str_eq(unit, "m") || str_eq(unit, "h") || str_eq(unit, "d") || str_eq(unit, "minute")
        || str_eq(unit, "minutes") || str_eq(unit, "hour") || str_eq(unit, "hours") || str_eq(
        unit,
        "day",
    ) || str_eq(unit, "days");
    ok
}

/// Takes a lookup expression apart, or says exactly why it cannot be.
///
/// The result is pinned to `parse_lookup_spec` on the expression's text: the
/// same tokens, the same error, nothing else.
pub fn parse_lookup(expr: &str) -> (r: Result<ParsedLookup, ParseError>)
    ensures
        match (r, parse_lookup_spec(expr@)) {
            (Ok(p), Ok(v)) => p@ == v,
            (Err(e), Err(f)) => e == f,
            _ => false,
        },
{
    let parts = split_char(expr, ' ');
    if parts.len() < 5 {
        return Err(ParseError::TooFewTokens);
    }
    proof {
        assert(parts.deep_view()[1] == parts@[1]@);
        assert(parts.deep_view()[0] == parts@[0]@);
        assert(parts.deep_view()[2] == parts@[2]@);
        assert(parts.deep_view()[4] == parts@[4]@);
    }
    let is_pct = str_eq(parts[1].as_str(), "pct");
    let is_abs = str_eq(parts[1].as_str(), "abs");
    if !is_pct && !is_abs {
        return Err(ParseError::InvalidMode);
    }
    if is_pct && parts.len() != 7 {
        return Err(ParseError::MissingDivisor);
    }
    let aggr_ok = str_eq(parts[0].as_str(), "avg") || str_eq(parts[0].as_str(), "sum") || str_eq(
        parts[0].as_str(),
        "min",
    ) || str_eq(parts[0].as_str(), "max") || str_eq(parts[0].as_str(), "count");
    if !aggr_ok {
        return Err(ParseError::InvalidAggregate);
    }
    if !check_window(parts[2].as_str()) {
        return Err(ParseError::InvalidWindow);
    }
    let numerator = split_char(parts[4].as_str(), ',');
    let divisor = if is_pct {
        proof {
            assert(parts.deep_view()[6] == parts@[6]@);
        }
        Some(split_char(parts[6].as_str(), ','))
    } else {
        None
    };
    let mode = if is_pct {
        QueryType::Pct
    } else {
        QueryType::Abs
    };
    Ok(
        ParsedLookup {
            aggr: parts[0].clone(),
            mode,
            window: parts[2].clone(),
            numerator,
            divisor,
        },
    )
}

/// The user-facing report for each parse failure. A bad mode names the
/// offending token; the other reports are fixed sentences.
pub open spec fn lookup_error_text(s: Seq<char>, e: ParseError) -> Seq<char> {
    match e {
        ParseError::TooFewTokens => "query: the lookup query is invalid, define as follow: [aggr] [mode] [timeframe] of [table] {over} {table}"@,
        ParseError::InvalidMode => "query: mode "@ + split_on(s, ' ')[1]
            + " is invalid. Valid are: pct, abs."@,
        ParseError::MissingDivisor => "query: lookup defined as mode pct but missing values, check usage."@,
        ParseError::InvalidAggregate => "query: aggr is invalid. Valid are: avg, sum, min, max, count."@,
        ParseError::InvalidWindow => "query: req_time is not correctly formatted."@,
    }
}

/// Renders the report for a parse failure of `expr`.
pub(crate) fn lookup_error_message(expr: &str, e: ParseError) -> (m: String)
    requires
        e matches ParseError::InvalidMode ==> split_on(expr@, ' ').len() >= 2,
    ensures
        m@ == lookup_error_text(expr@, e),
{
    match e {
        ParseError::TooFewTokens => String::from_str(
            "query: the lookup query is invalid, define as follow: [aggr] [mode] [timeframe] of [table] {over} {table}",
        ),
        ParseError::InvalidMode => {
            let parts = split_char(expr, ' ');
            proof {
                assert(parts.deep_view()[1] == parts@[1]@);
            }
            let mut m = String::from_str("query: mode ");
            m.append(parts[1].as_str());
            m.append(" is invalid. Valid are: pct, abs.");
            proof {
                assert(m@ =~= lookup_error_text(expr@, e));
            }
            m
        },
        ParseError::MissingDivisor => String::from_str(
            "query: lookup defined as mode pct but missing values, check usage.",
        ),
        ParseError::InvalidAggregate => String::from_str(
            "query: aggr is invalid. Valid are: avg, sum, min, max, count.",
        ),
        ParseError::InvalidWindow => String::from_str(
            "query: req_time is not correctly formatted.",
        ),
    }
}

} // verus!
