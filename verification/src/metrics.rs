//! Shapes shared by the telemetry surface: the host selector carried by
//! fetch requests, and the conversion interface ingestion uses to turn a
//! posted payload into insertable rows.

use vstd::prelude::*;
use vstd::string::StringExecFns;

use crate::granularity::granularity_for_span;
use crate::granularity::granularity_of;
use crate::granularity::rollup_suffix_of;
use crate::granularity::MAX_BUCKET_WIDTH;
use crate::granularity::ROLLUP_SPAN_LIMIT;

verus! {

/// The host a request points at, by its uuid.
#[derive(Debug, Clone)]
pub struct Specific {
    pub uuid: String,
}

/// Conversion from a posted payload into the insertable shape for one
/// metric kind, keyed to the host it belongs to. `None` means the payload
/// carries no sample of this kind.
pub trait CFrom<T>: Sized {
    type RET;

    type UUID;

    fn cfrom(item: T, huuid: Self::UUID) -> Option<Self::RET>;
}

/// The decimal digit character for one value of a digit.
pub open spec fn dec_digit(d: int) -> char {
    if d == 0 {
        '0'
    } else if d == 1 {
        '1'
    } else if d == 2 {
        '2'
    } else if d == 3 {
        '3'
    } else if d == 4 {
        '4'
    } else if d == 5 {
        '5'
    } else if d == 6 {
        '6'
    } else if d == 7 {
        '7'
    } else if d == 8 {
        '8'
    } else {
        '9'
    }
}

/// The decimal rendering of a nonnegative number, without sign or padding.
pub open spec fn dec_str(n: int) -> Seq<char>
    decreases n,
{
    if n < 10 {
        seq![dec_digit(n)]
    } else {
        dec_str(n / 10) + seq![dec_digit(n % 10)]
    }
}

fn digit_str(d: u32) -> (s: &'static str)
    requires
        d < 10,
    ensures
        s@ == seq![dec_digit(d as int)],
{
    let s: &'static str = match d {
        0 => "0",
        1 => "1",
        2 => "2",
        3 => "3",
        4 => "4",
        5 => "5",
        6 => "6",
        7 => "7",
        8 => "8",
        _ => "9",
    };
    proof {
        reveal_strlit("0");
        reveal_strlit("1");
        reveal_strlit("2");
        reveal_strlit("3");
        reveal_strlit("4");
        reveal_strlit("5");
        reveal_strlit("6");
        reveal_strlit("7");
        reveal_strlit("8");
        reveal_strlit("9");
        assert(s@ =~= seq![dec_digit(d as int)]);
    }
    s
}

/// Renders a number in decimal.
pub fn u32_to_string(n: u32) -> (s: String)
    ensures
        s@ == dec_str(n as int),
    decreases n,
{
    if n < 10 {
        String::from_str(digit_str(n))
    } else {
        let mut s = u32_to_string(n / 10);
        s.append(digit_str(n % 10));
        s
    }
}

/// Column names joined with a comma: `a, b, c`.
pub open spec fn comma_join(items: Seq<Seq<char>>) -> Seq<char>
    decreases items.len(),
{
    if items.len() == 0 {
        Seq::empty()
    } else if items.len() == 1 {
        items[0]
    } else {
        items[0] + ", "@ + comma_join(items.subrange(1, items.len() as int))
    }
}

/// Each column averaged into a bucket, keeping its name:
/// `avg(a)::int8 as a, avg(b)::int8 as b`.
pub open spec fn avg_join(items: Seq<Seq<char>>) -> Seq<char>
    decreases items.len(),
{
    if items.len() == 0 {
        Seq::empty()
    } else if items.len() == 1 {
        "avg("@ + items[0] + ")::int8 as "@ + items[0]
    } else {
        "avg("@ + items[0] + ")::int8 as "@ + items[0] + ", "@ + avg_join(
            items.subrange(1, items.len() as int),
        )
    }
}

/// The extra GROUP BY keys: `,k` for each key column.
pub open spec fn group_suffix(keys: Seq<Seq<char>>) -> Seq<char>
    decreases keys.len(),
{
    if keys.len() == 0 {
        Seq::<char>::empty()
    } else {
        ","@ + keys[0] + group_suffix(keys.subrange(1, keys.len() as int))
    }
}

/// The inner projection of the bucketing query: the key columns as they
/// are, then the numeric columns averaged per bucket.
pub open spec fn inner_projection(keys: Seq<Seq<char>>, avgs: Seq<Seq<char>>) -> Seq<char> {
    if keys.len() == 0 {
        avg_join(avgs)
    } else if avgs.len() == 0 {
        comma_join(keys)
    } else {
        comma_join(keys) + ", "@ + avg_join(avgs)
    }
}

/// The statement fetching one metric kind over a date range, at the
/// resolution the span calls for: a rollup view beyond the bucket-width
/// limit, a time-bucketed aggregation of the raw table otherwise. The host
/// and both dates are bound as true parameters.
pub open spec fn dated_query_text(
    table: Seq<char>,
    keys: Seq<Seq<char>>,
    avgs: Seq<Seq<char>>,
    span: int,
) -> Seq<char> {
    if granularity_of(span) > MAX_BUCKET_WIDTH as int {
        "SELECT "@ + comma_join(keys + avgs) + ", time as created_at FROM "@ + table
            + rollup_suffix_of(span)
            + " WHERE host_uuid=$1 AND time BETWEEN $2 AND $3 ORDER BY time DESC"@
    } else {
        "WITH s AS (SELECT "@ + inner_projection(keys, avgs) + ", time_bucket('"@ + dec_str(
            granularity_of(span),
        ) + "s', created_at) as time FROM "@ + table
            + " WHERE host_uuid=$1 AND created_at BETWEEN $2 AND $3 GROUP BY time"@
            + group_suffix(keys) + " ORDER BY time DESC) SELECT "@ + comma_join(keys + avgs)
            + ", time as created_at FROM s"@
    }
}

/// Appends the comma-joined column names to `out`.
fn append_comma_join(out: &mut String, items: &Vec<String>)
    ensures
        final(out)@ == old(out)@ + comma_join(items.deep_view()),
{
    let ghost all = items.deep_view();
    let ghost base = out@;
    let mut i: usize = 0;
    proof {
        assert(all.subrange(0, all.len() as int) =~= all);
    }
    while i < items.len()
        invariant
            0 <= i <= items.len(),
            all == items.deep_view(),
            all.len() == items.len(),
            base + comma_join(all) == out@ + comma_join(
                all.subrange(i as int, all.len() as int),
            ),
        decreases items.len() - i,
    {
        let ghost rest = all.subrange(i as int, all.len() as int);
        let ghost pre = out@;
        out.append(items[i].as_str());
        if i + 1 < items.len() {
            out.append(", ");
            proof {
                assert(rest.subrange(1, rest.len() as int) =~= all.subrange(
                    i + 1,
                    all.len() as int,
                ));
                assert(out@ =~= pre + (rest[0] + ", "@));
                assert(pre + comma_join(rest) =~= out@ + comma_join(
                    all.subrange(i + 1, all.len() as int),
                ));
            }
        } else {
            proof {
                assert(all.subrange(i + 1, all.len() as int) =~= Seq::<Seq<char>>::empty());
                assert(pre + comma_join(rest) =~= out@ + comma_join(
                    all.subrange(i + 1, all.len() as int),
                ));
            }
        }
        i = i + 1;
    }
    proof {
        assert(all.subrange(all.len() as int, all.len() as int) =~= Seq::<Seq<char>>::empty());
        assert(out@ =~= base + comma_join(all));
    }
}

/// Appends the averaged projection of the columns to `out`.
fn append_avg_join(out: &mut String, items: &Vec<String>)
    ensures
        final(out)@ == old(out)@ + avg_join(items.deep_view()),
{
    let ghost all = items.deep_view();
    let ghost base = out@;
    let mut i: usize = 0;
    proof {
        assert(all.subrange(0, all.len() as int) =~= all);
    }
    while i < items.len()
        invariant
            0 <= i <= items.len(),
            all == items.deep_view(),
            all.len() == items.len(),
            base + avg_join(all) == out@ + avg_join(all.subrange(i as int, all.len() as int)),
        decreases items.len() - i,
    {
        let ghost rest = all.subrange(i as int, all.len() as int);
        let ghost pre = out@;
        out.append("avg(");
        out.append(items[i].as_str());
        out.append(")::int8 as ");
        out.append(items[i].as_str());
        if i + 1 < items.len() {
            out.append(", ");
            proof {
                assert(rest.subrange(1, rest.len() as int) =~= all.subrange(
                    i + 1,
                    all.len() as int,
                ));
                assert(out@ =~= pre + ("avg("@ + rest[0] + ")::int8 as "@ + rest[0] + ", "@));
                assert(pre + avg_join(rest) =~= out@ + avg_join(
                    all.subrange(i + 1, all.len() as int),
                ));
            }
        } else {
            proof {
                assert(all.subrange(i + 1, all.len() as int) =~= Seq::<Seq<char>>::empty());
                assert(out@ =~= pre + ("avg("@ + rest[0] + ")::int8 as "@ + rest[0]));
                assert(pre + avg_join(rest) =~= out@ + avg_join(
                    all.subrange(i + 1, all.len() as int),
                ));
            }
        }
        i = i + 1;
    }
    proof {
        assert(all.subrange(all.len() as int, all.len() as int) =~= Seq::<Seq<char>>::empty());
        assert(out@ =~= base + avg_join(all));
    }
}

/// Appends `,k` for each key column to `out`.
fn append_group_suffix(out: &mut String, keys: &Vec<String>)
    ensures
        final(out)@ == old(out)@ + group_suffix(keys.deep_view()),
{
    let ghost all = keys.deep_view();
    let ghost base = out@;
    let mut i: usize = 0;
    proof {
        assert(all.subrange(0, all.len() as int) =~= all);
    }
    while i < keys.len()
        invariant
            0 <= i <= keys.len(),
            all == keys.deep_view(),
            all.len() == keys.len(),
            base + group_suffix(all) == out@ + group_suffix(
                all.subrange(i as int, all.len() as int),
            ),
        decreases keys.len() - i,
    {
        let ghost rest = all.subrange(i as int, all.len() as int);
        let ghost pre = out@;
        out.append(",");
        out.append(keys[i].as_str());
        proof {
            assert(rest.subrange(1, rest.len() as int) =~= all.subrange(
                i + 1,
                all.len() as int,
            ));
            assert(out@ =~= pre + (","@ + rest[0]));
            assert(pre + group_suffix(rest) =~= out@ + group_suffix(
                all.subrange(i + 1, all.len() as int),
            ));
        }
        i = i + 1;
    }
    proof {
        assert(all.subrange(all.len() as int, all.len() as int) =~= Seq::<Seq<char>>::empty());
        assert(out@ =~= base + group_suffix(all));
    }
}

/// Builds the statement fetching one metric kind over the date range
/// [`min_date`, `max_date`] (timestamps in seconds): `key_cols` are carried
/// and grouped as they are (a disk's name, an interface), `avg_cols` are
/// averaged per bucket. The text is exactly `dated_query_text` at the
/// range's span.
#[verifier::loop_isolation(false)]
pub fn build_dated_query(
    table: &str,
    key_cols: &Vec<String>,
    avg_cols: &Vec<String>,
    min_date: i64,
    max_date: i64,
) -> (q: String)
    ensures
        q@ == dated_query_text(
            table@,
            key_cols.deep_view(),
            avg_cols.deep_view(),
            max_date - min_date,
        ),
{
    let span: i128 = max_date as i128 - min_date as i128;
    let granularity = granularity_for_span(span);
    let mut joined: Vec<String> = Vec::new();
    let mut i: usize = 0;
    while i < key_cols.len()
        invariant
            0 <= i <= key_cols.len(),
            joined.deep_view() =~= key_cols.deep_view().subrange(0, i as int),
        decreases key_cols.len() - i,
    {
        let ghost pre = joined.deep_view();
        joined.push(key_cols[i].clone());
        proof {
            assert(joined.deep_view() =~= pre.push(key_cols.deep_view()[i as int]));
            assert(joined.deep_view() =~= key_cols.deep_view().subrange(0, i + 1));
        }
        i = i + 1;
    }
    let mut i: usize = 0;
    while i < avg_cols.len()
        invariant
            0 <= i <= avg_cols.len(),
            joined.deep_view() =~= key_cols.deep_view() + avg_cols.deep_view().subrange(
                0,
                i as int,
            ),
        decreases avg_cols.len() - i,
    {
        let ghost pre = joined.deep_view();
        joined.push(avg_cols[i].clone());
        proof {
            assert(joined.deep_view() =~= pre.push(avg_cols.deep_view()[i as int]));
            assert(joined.deep_view() =~= key_cols.deep_view() + avg_cols.deep_view().subrange(
                0,
                i + 1,
            ));
        }
        i = i + 1;
    }
    proof {
        assert(joined.deep_view() =~= key_cols.deep_view() + avg_cols.deep_view());
    }
    if granularity > MAX_BUCKET_WIDTH {
        let mut q = String::from_str("SELECT ");
        append_comma_join(&mut q, &joined);
        q.append(", time as created_at FROM ");
        q.append(table);
        if span < ROLLUP_SPAN_LIMIT as i128 {
            q.append("_10m");
        } else {
            q.append("_30m");
        }
        q.append(" WHERE host_uuid=$1 AND time BETWEEN $2 AND $3 ORDER BY time DESC");
        proof {
            assert(q@ =~= dated_query_text(
                table@,
                key_cols.deep_view(),
                avg_cols.deep_view(),
                max_date - min_date,
            ));
        }
        q
    } else {
        let mut q = String::from_str("WITH s AS (SELECT ");
        if key_cols.len() == 0 {
            append_avg_join(&mut q, avg_cols);
        } else if avg_cols.len() == 0 {
            append_comma_join(&mut q, key_cols);
        } else {
            append_comma_join(&mut q, key_cols);
            q.append(", ");
            append_avg_join(&mut q, avg_cols);
        }
        q.append(", time_bucket('");
        let g = u32_to_string(granularity);
        q.append(g.as_str());
        q.append("s', created_at) as time FROM ");
        q.append(table);
        q.append(" WHERE host_uuid=$1 AND created_at BETWEEN $2 AND $3 GROUP BY time");
        append_group_suffix(&mut q, key_cols);
        q.append(" ORDER BY time DESC) SELECT ");
        append_comma_join(&mut q, &joined);
        q.append(", time as created_at FROM s");
        proof {
            assert(q@ =~= dated_query_text(
                table@,
                key_cols.deep_view(),
                avg_cols.deep_view(),
                max_date - min_date,
            ));
        }
        q
    }
}

} // verus!
