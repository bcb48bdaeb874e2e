//! The aggregation-query compiler: turns a parsed lookup expression plus the
//! alert's table and optional filter clause into one parameterized
//! aggregation statement, and rejects any statement whose upper-cased text
//! holds a mutating SQL keyword. Column and table names cannot be bound as
//! parameters, so this keyword gate is the second line of defense behind
//! parameter binding.

use vstd::prelude::*;
use vstd::string::StrSliceExecFns;
use vstd::string::StringExecFns;

use crate::errors::ApiError;
use crate::lookup::lookup_error_message;
use crate::lookup::parse_lookup;
use crate::lookup::parse_lookup_spec;
use crate::lookup::ParsedLookupView;
use crate::text::contains_upper;
use crate::text::is_substring_of;
use crate::text::upper_seq;

verus! {

/// Whether an alert's numeric result is a ratio of two aggregated column
/// groups (`Pct`) or a single aggregated value (`Abs`).
#[derive(Debug, PartialEq, Eq, Structural, Clone, Copy)]
pub enum QueryType {
    Pct,
    Abs,
}

/// The statement keywords no compiled query may contain: anything that
/// mutates data or transaction state. `CREATE` is deliberately absent: it
/// would match the ever-present column `created_at`.
pub open spec fn disallowed_keywords() -> Seq<Seq<char>> {
    seq![
        "DELETE"@,
        "UPDATE"@,
        "INSERT"@,
        "ALTER"@,
        "DROP"@,
        "TRUNCATE"@,
        "GRANT"@,
        "REVOKE"@,
        "BEGIN"@,
        "COMMIT"@,
        "SAVEPOINT"@,
        "ROLLBACK"@,
    ]
}

/// The upper-cased statement holds at least one disallowed keyword.
pub open spec fn has_disallowed(q: Seq<char>) -> bool {
    exists|k: int|
        0 <= k < disallowed_keywords().len() && is_substring_of(
            #[trigger] disallowed_keywords()[k],
            upper_seq(q),
        )
}

/// Index of the first disallowed keyword occurring in the upper-cased
/// statement, scanning from position `k` of the keyword list; the list's
/// length if none occurs.
pub open spec fn first_disallowed_from(q: Seq<char>, k: int) -> int
    decreases disallowed_keywords().len() - k,
{
    if k < 0 || k >= disallowed_keywords().len() {
        disallowed_keywords().len() as int
    } else if is_substring_of(disallowed_keywords()[k], upper_seq(q)) {
        k
    } else {
        first_disallowed_from(q, k + 1)
    }
}

/// The projection for one column list: each column aggregated and cast to
/// `float8`, the casts added together.
pub open spec fn aggregated_columns(aggr: Seq<char>, cols: Seq<Seq<char>>) -> Seq<char>
    decreases cols.len(),
{
    if cols.len() == 0 {
        Seq::empty()
    } else if cols.len() == 1 {
        aggr + "("@ + cols[0] + ")::float8"@
    } else {
        aggr + "("@ + cols[0] + ")::float8 + "@ + aggregated_columns(
            aggr,
            cols.subrange(1, cols.len() as int),
        )
    }
}

/// The full SELECT projection: the numerator columns aliased `numerator`
/// and the divisor columns aliased `divisor` in percentage mode, the single
/// sum aliased `value` in absolute mode.
pub open spec fn select_clause(v: ParsedLookupView) -> Seq<char> {
    match v.divisor {
        Some(divs) => aggregated_columns(v.aggr, v.numerator) + " as numerator, "@
            + aggregated_columns(v.aggr, divs) + " as divisor"@,
        None => aggregated_columns(v.aggr, v.numerator) + " as value"@,
    }
}

/// The optional free-form filter, appended verbatim as a conjunct.
pub open spec fn where_fragment(wc: Option<Seq<char>>) -> Seq<char> {
    match wc {
        Some(w) => " AND "@ + w,
        None => Seq::<char>::empty(),
    }
}

/// The complete statement compiled for a parsed lookup over `table` with the
/// optional filter `wc`: a time-bucketed aggregation over the lookup's
/// window, newest bucket first, with the host bound as the one true
/// parameter.
pub open spec fn compiled_query_text(
    v: ParsedLookupView,
    table: Seq<char>,
    wc: Option<Seq<char>>,
) -> Seq<char> {
    "SELECT time_bucket('"@ + v.window + "', created_at) as time, "@ + select_clause(v)
        + " FROM "@ + table
        + " WHERE host_uuid=$1 AND created_at > now() at time zone 'utc' - INTERVAL '"@ + v.window
        + "' "@ + where_fragment(wc) + " GROUP BY time ORDER BY time DESC"@
}

/// The first six characters of a host uuid, as shown in error reports.
pub open spec fn short_uuid(s: Seq<char>) -> Seq<char> {
    if s.len() <= 6 {
        s
    } else {
        s.subrange(0, 6)
    }
}

/// The report raised when a compiled statement holds a disallowed keyword.
pub open spec fn disallowed_report(
    name: Seq<char>,
    host_uuid: Seq<char>,
    kw: Seq<char>,
) -> Seq<char> {
    "Alert "@ + name + " for host_uuid "@ + short_uuid(host_uuid)
        + " contains disallowed statement \""@ + kw + "\""@
}

/// What compiling must yield: the parse error's report, the keyword report
/// naming the first disallowed keyword found, or the compiled statement with
/// its mode tag.
pub open spec fn construct_query_result(
    lookup: Seq<char>,
    table: Seq<char>,
    wc: Option<Seq<char>>,
    name: Seq<char>,
    host_uuid: Seq<char>,
    r: Result<(String, QueryType), ApiError>,
) -> bool {
    match parse_lookup_spec(lookup) {
        Err(e) => r matches Err(ApiError::InvalidRequestError(Some(m))) && m@
            == crate::lookup::lookup_error_text(lookup, e),
        Ok(v) => {
            let q = compiled_query_text(v, table, wc);
            if has_disallowed(q) {
                r matches Err(ApiError::InvalidRequestError(Some(m))) && m@ == disallowed_report(
                    name,
                    host_uuid,
                    disallowed_keywords()[first_disallowed_from(q, 0)],
                )
            } else {
                r matches Ok(p) && p.0@ == q && p.1 == v.mode
            }
        },
    }
}

/// Builds the projection for one column list.
fn aggregated_columns_exec(aggr: &str, cols: &Vec<String>) -> (out: String)
    ensures
        out@ == aggregated_columns(aggr@, cols.deep_view()),
{
    let ghost all = cols.deep_view();
    let mut out = String::new();
    let mut i: usize = 0;
    proof {
        assert(all.subrange(0, all.len() as int) =~= all);
        assert(out@ + aggregated_columns(aggr@, all) =~= aggregated_columns(aggr@, all));
    }
    while i < cols.len()
        invariant
            0 <= i <= cols.len(),
            all == cols.deep_view(),
            all.len() == cols.len(),
            aggregated_columns(aggr@, all) == out@ + aggregated_columns(
                aggr@,
                all.subrange(i as int, all.len() as int),
            ),
        decreases cols.len() - i,
    {
        let ghost rest = all.subrange(i as int, all.len() as int);
        let ghost pre = out@;
        out.append(aggr);
        out.append("(");
        out.append(cols[i].as_str());
        if i + 1 < cols.len() {
            out.append(")::float8 + ");
            proof {
                assert(cols@[i as int]@ == rest[0]);
                assert(rest.subrange(1, rest.len() as int) =~= all.subrange(
                    i + 1,
                    all.len() as int,
                ));
                assert(out@ =~= pre + (aggr@ + "("@ + rest[0] + ")::float8 + "@));
                assert(pre + aggregated_columns(aggr@, rest) =~= out@ + aggregated_columns(
                    aggr@,
                    all.subrange(i + 1, all.len() as int),
                ));
            }
        } else {
            out.append(")::float8");
            proof {
                assert(cols@[i as int]@ == rest[0]);
                assert(rest.len() == 1);
                assert(out@ =~= pre + (aggr@ + "("@ + rest[0] + ")::float8"@));
                assert(all.subrange(i + 1, all.len() as int) =~= Seq::<Seq<char>>::empty());
                assert(pre + aggregated_columns(aggr@, rest) =~= out@ + aggregated_columns(
                    aggr@,
                    all.subrange(i + 1, all.len() as int),
                ));
            }
        }
        i = i + 1;
    }
    proof {
        assert(all.subrange(all.len() as int, all.len() as int) =~= Seq::<Seq<char>>::empty());
        assert(out@ =~= aggregated_columns(aggr@, all));
    }
    out
}

/// Scanning the keyword list in order stops at the first keyword that
/// occurs.
pub proof fn lemma_first_disallowed(q: Seq<char>, k0: int, i: int)
    requires
        0 <= k0 <= i <= disallowed_keywords().len(),
        forall|k: int|
            k0 <= k < i ==> !is_substring_of(#[trigger] disallowed_keywords()[k], upper_seq(q)),
        i < disallowed_keywords().len() ==> is_substring_of(disallowed_keywords()[i], upper_seq(q)),
    ensures
        first_disallowed_from(q, k0) == i,
    decreases i - k0,
{
    if k0 < i {
        lemma_first_disallowed(q, k0 + 1, i);
    }
}

/// The disallowed keyword list as runtime values, in spec order.
fn disallowed_list() -> (kws: Vec<&'static str>)
    ensures
        kws.len() == disallowed_keywords().len(),
        forall|k: int| 0 <= k < kws.len() ==> kws@[k]@ == #[trigger] disallowed_keywords()[k],
{
    let kws: Vec<&'static str> = vec![
        "DELETE",
        "UPDATE",
        "INSERT",
        "ALTER",
        "DROP",
        "TRUNCATE",
        "GRANT",
        "REVOKE",
        "BEGIN",
        "COMMIT",
        "SAVEPOINT",
        "ROLLBACK",
    ];
    proof {
        assert forall|k: int| 0 <= k < kws@.len() implies kws@[k]@ == #[trigger] disallowed_keywords()[k] by {
            assert(kws@[0]@ == disallowed_keywords()[0]);
            assert(kws@[1]@ == disallowed_keywords()[1]);
            assert(kws@[2]@ == disallowed_keywords()[2]);
            assert(kws@[3]@ == disallowed_keywords()[3]);
            assert(kws@[4]@ == disallowed_keywords()[4]);
            assert(kws@[5]@ == disallowed_keywords()[5]);
            assert(kws@[6]@ == disallowed_keywords()[6]);
            assert(kws@[7]@ == disallowed_keywords()[7]);
            assert(kws@[8]@ == disallowed_keywords()[8]);
            assert(kws@[9]@ == disallowed_keywords()[9]);
            assert(kws@[10]@ == disallowed_keywords()[10]);
            assert(kws@[11]@ == disallowed_keywords()[11]);
        }
    }
    kws
}

/// Compiles a lookup expression over `table` with the optional filter
/// `where_clause` into one parameterized aggregation statement, tagged with
/// its mode. Fails with the exact parse report when the lookup does not
/// parse, and with the keyword report when the assembled statement holds a
/// disallowed keyword; `name` and `host_uuid` only label that report.
#[verifier::loop_isolation(false)]
pub fn compile_lookup_query(
    lookup: &str,
    table: &str,
    where_clause: &Option<String>,
    name: &str,
    host_uuid: &str,
) -> (r: Result<(String, QueryType), ApiError>)
    ensures
        construct_query_result(
            lookup@,
            table@,
            where_clause.deep_view(),
            name@,
            host_uuid@,
            r,
        ),
{
    let parsed = match parse_lookup(lookup) {
        Ok(p) => p,
        Err(e) => {
            let m = lookup_error_message(lookup, e);
            return Err(ApiError::InvalidRequestError(Some(m)));
        },
    };
    let mut select = aggregated_columns_exec(parsed.aggr.as_str(), &parsed.numerator);
    let ghost select_pre = select@;
    match &parsed.divisor {
        Some(divs) => {
            select.append(" as numerator, ");
            let d = aggregated_columns_exec(parsed.aggr.as_str(), divs);
            select.append(d.as_str());
            select.append(" as divisor");
            proof {
                assert(select@ =~= select_clause(parsed@));
            }
        },
        None => {
            select.append(" as value");
            proof {
                assert(select@ =~= select_clause(parsed@));
            }
        },
    }
    let mut query = String::from_str("SELECT time_bucket('");
    query.append(parsed.window.as_str());
    query.append("', created_at) as time, ");
    query.append(select.as_str());
    query.append(" FROM ");
    query.append(table);
    query.append(" WHERE host_uuid=$1 AND created_at > now() at time zone 'utc' - INTERVAL '");
    query.append(parsed.window.as_str());
    query.append("' ");
    match where_clause {
        Some(w) => {
            query.append(" AND ");
            query.append(w.as_str());
        },
        None => {},
    }
    query.append(" GROUP BY time ORDER BY time DESC");
    let ghost qtext = compiled_query_text(parsed@, table@, where_clause.deep_view());
    proof {
        assert(query@ =~= qtext);
    }
    let kws = disallowed_list();
    let mut k: usize = 0;
    while k < kws.len()
        invariant
            0 <= k <= kws.len(),
            kws.len() == disallowed_keywords().len(),
            forall|k2: int| 0 <= k2 < kws.len() ==> kws@[k2]@ == #[trigger] disallowed_keywords()[k2],
            forall|k2: int|
                0 <= k2 < k ==> !is_substring_of(
                    #[trigger] disallowed_keywords()[k2],
                    upper_seq(query@),
                ),
            query@ == qtext,
        decreases kws.len() - k,
    {
        if contains_upper(query.as_str(), kws[k]) {
            proof {
                lemma_first_disallowed(query@, 0, k as int);
                assert(has_disallowed(query@));
            }
            let mut m = String::from_str("Alert ");
            m.append(name);
            m.append(" for host_uuid ");
            if host_uuid.unicode_len() <= 6 {
                m.append(host_uuid);
            } else {
                m.append(host_uuid.substring_char(0, 6));
            }
            m.append(" contains disallowed statement \"");
            m.append(kws[k]);
            m.append("\"");
            proof {
                assert(m@ =~= disallowed_report(
                    name@,
                    host_uuid@,
                    disallowed_keywords()[first_disallowed_from(qtext, 0)],
                ));
            }
            return Err(ApiError::InvalidRequestError(Some(m)));
        }
        k = k + 1;
    }
    proof {
        lemma_first_disallowed(query@, 0, disallowed_keywords().len() as int);
        assert(!has_disallowed(query@));
    }
    Ok((query, parsed.mode))
}

/// A keyword occurring (in any letter case) inside one fragment of a
/// statement occurs in the whole statement.
pub proof fn lemma_keyword_in_fragment(
    q: Seq<char>,
    pre: Seq<char>,
    frag: Seq<char>,
    post: Seq<char>,
    k: int,
)
    requires
        0 <= k < disallowed_keywords().len(),
        q == pre + frag + post,
        is_substring_of(disallowed_keywords()[k], upper_seq(frag)),
    ensures
        has_disallowed(q),
{
    assert(frag.subrange(0, 0 + frag.len() as int) =~= frag);
    assert(is_substring_of(frag, frag));
    crate::text::lemma_substring_of_concat_left(frag, frag, post);
    crate::text::lemma_substring_of_concat_right(frag, pre, frag + post);
    assert(pre + (frag + post) =~= pre + frag + post);
    crate::text::lemma_upper_of_substring(frag, q);
    crate::text::lemma_substring_trans(disallowed_keywords()[k], upper_seq(frag), upper_seq(q));
}

/// Law: a filter clause holding a disallowed keyword, in any letter case,
/// taints the compiled statement, whatever the rest of the alert says.
pub proof fn lemma_where_keyword_taints(
    v: ParsedLookupView,
    table: Seq<char>,
    w: Seq<char>,
    k: int,
)
    requires
        0 <= k < disallowed_keywords().len(),
        is_substring_of(disallowed_keywords()[k], upper_seq(w)),
    ensures
        has_disallowed(compiled_query_text(v, table, Some(w))),
{
    let q = compiled_query_text(v, table, Some(w));
    let pre = "SELECT time_bucket('"@ + v.window + "', created_at) as time, "@ + select_clause(v)
        + " FROM "@ + table
        + " WHERE host_uuid=$1 AND created_at > now() at time zone 'utc' - INTERVAL '"@ + v.window
        + "' "@ + " AND "@;
    let post = " GROUP BY time ORDER BY time DESC"@;
    assert(q =~= pre + w + post);
    lemma_keyword_in_fragment(q, pre, w, post, k);
}

/// Law: a table name holding a disallowed keyword, in any letter case,
/// taints the compiled statement.
pub proof fn lemma_table_keyword_taints(
    v: ParsedLookupView,
    table: Seq<char>,
    wc: Option<Seq<char>>,
    k: int,
)
    requires
        0 <= k < disallowed_keywords().len(),
        is_substring_of(disallowed_keywords()[k], upper_seq(table)),
    ensures
        has_disallowed(compiled_query_text(v, table, wc)),
{
    let q = compiled_query_text(v, table, wc);
    let pre = "SELECT time_bucket('"@ + v.window + "', created_at) as time, "@ + select_clause(v)
        + " FROM "@;
    let post = " WHERE host_uuid=$1 AND created_at > now() at time zone 'utc' - INTERVAL '"@
        + v.window + "' "@ + where_fragment(wc) + " GROUP BY time ORDER BY time DESC"@;
    assert(q =~= pre + table + post);
    lemma_keyword_in_fragment(q, pre, table, post, k);
}

/// Law: an alert whose lookup parses but whose filter clause holds a
/// disallowed keyword, in any letter case, is refused by the compiler.
pub proof fn lemma_unsafe_where_clause_refused(
    lookup: Seq<char>,
    table: Seq<char>,
    w: Seq<char>,
    name: Seq<char>,
    host_uuid: Seq<char>,
    k: int,
    r: Result<(String, QueryType), ApiError>,
)
    requires
        construct_query_result(lookup, table, Some(w), name, host_uuid, r),
        0 <= k < disallowed_keywords().len(),
        is_substring_of(disallowed_keywords()[k], upper_seq(w)),
    ensures
        r is Err,
{
    match parse_lookup_spec(lookup) {
        Err(_) => {},
        Ok(v) => {
            lemma_where_keyword_taints(v, table, w, k);
        },
    }
}

/// Law: every statement the compiler returns is free of disallowed
/// keywords over its whole upper-cased text.
pub proof fn lemma_compiled_query_is_clean(
    lookup: Seq<char>,
    table: Seq<char>,
    wc: Option<Seq<char>>,
    name: Seq<char>,
    host_uuid: Seq<char>,
    r: Result<(String, QueryType), ApiError>,
)
    requires
        construct_query_result(lookup, table, wc, name, host_uuid, r),
        r is Ok,
    ensures
        forall|k: int|
            0 <= k < disallowed_keywords().len() ==> !is_substring_of(
                #[trigger] disallowed_keywords()[k],
                upper_seq((r->Ok_0).0@),
            ),
{
}

/// Law: compiling succeeds exactly when the lookup parses and the statement
/// it assembles is free of disallowed keywords.
pub proof fn lemma_compile_success_iff(
    lookup: Seq<char>,
    table: Seq<char>,
    wc: Option<Seq<char>>,
    name: Seq<char>,
    host_uuid: Seq<char>,
    r: Result<(String, QueryType), ApiError>,
)
    requires
        construct_query_result(lookup, table, wc, name, host_uuid, r),
    ensures
        r is Ok <==> (parse_lookup_spec(lookup) is Ok && !has_disallowed(
            compiled_query_text(parse_lookup_spec(lookup)->Ok_0, table, wc),
        )),
{
}

} // verus!
