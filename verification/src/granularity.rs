//! Maps a requested time span to the resolution used to aggregate samples:
//! either a runtime time-bucket width in seconds, or the tag of a precomputed
//! rollup view once runtime bucketing would get too coarse.

use vstd::prelude::*;

verus! {

/// Span (in seconds) from which the coarser "30m" rollup view is preferred
/// over the "10m" one: 96 hours.
pub const ROLLUP_SPAN_LIMIT: i64 = 345600;

/// Widest bucket (in seconds) that runtime aggregation is allowed to use
/// before switching to a rollup view.
pub const MAX_BUCKET_WIDTH: u32 = 60;

/// Bucket width in seconds for a query spanning `span` seconds: the affine
/// estimate `(2790 * span + 298206) / 1000000` (so a 300 s span yields 1 s
/// buckets and a 21600 s span yields 60 s buckets), clamped to [1, 86400].
/// A degenerate span (zero or negative) maps to the minimum width.
pub open spec fn granularity_of(span: int) -> int {
    if span <= 0 {
        1
    } else {
        let raw = (2790 * span + 298206) / 1000000;
        if raw < 1 {
            1
        } else if raw > 86400 {
            86400
        } else {
            raw
        }
    }
}

/// Tag of the rollup view serving a query spanning `span` seconds: one data
/// point per 10 minutes below 96 hours, per 30 minutes from there on.
pub open spec fn rollup_tag_of(span: int) -> Seq<char> {
    if span < ROLLUP_SPAN_LIMIT as int {
        "10m"@
    } else {
        "30m"@
    }
}

/// Table-name suffix of the rollup view serving a span of `span` seconds.
pub open spec fn rollup_suffix_of(span: int) -> Seq<char> {
    if span < ROLLUP_SPAN_LIMIT as int {
        "_10m"@
    } else {
        "_30m"@
    }
}

/// How to aggregate over a span: group raw rows into buckets of the given
/// width in seconds, or read the precomputed rollup view with the given tag.
pub enum Resolution {
    Bucket(u32),
    RollupView(String),
}

/// Spec-level image of a `Resolution`.
pub enum ResolutionView {
    Bucket(int),
    RollupView(Seq<char>),
}

impl View for Resolution {
    type V = ResolutionView;

    open spec fn view(&self) -> ResolutionView {
        match self {
            Resolution::Bucket(w) => ResolutionView::Bucket(*w as int),
            Resolution::RollupView(tag) => ResolutionView::RollupView(tag@),
        }
    }
}

/// Resolution chosen for a span of `span` seconds: runtime buckets while the
/// computed width stays within `MAX_BUCKET_WIDTH`, a rollup view beyond.
pub open spec fn resolution_of(span: int) -> ResolutionView {
    if granularity_of(span) > MAX_BUCKET_WIDTH as int {
        ResolutionView::RollupView(rollup_tag_of(span))
    } else {
        ResolutionView::Bucket(granularity_of(span))
    }
}

/// Bucket width for a span given as a wide integer, so that no span a caller
/// can form overflows.
pub fn granularity_for_span(span: i128) -> (g: u32)
    ensures
        g == granularity_of(span as int),
        1 <= g <= 86400,
        span <= 0 ==> g == 1,
{
    if span <= 0 {
        1
    } else if span > 40000000 {
        proof {
            assert(2790 * span + 298206 >= 86401 * 1000000);
            vstd::arithmetic::div_mod::lemma_div_is_ordered(
                86401int * 1000000int,
                2790 * span + 298206,
                1000000int,
            );
            vstd::arithmetic::div_mod::lemma_div_multiples_vanish(86401int, 1000000int);
            assert(1000000 * 86401 == 86401 * 1000000);
        }
        86400
    } else {
        let scaled: i128 = 2790 * span + 298206;
        let raw: i128 = scaled / 1000000;
        if raw < 1 {
            1
        } else if raw > 86400 {
            86400
        } else {
            raw as u32
        }
    }
}

/// Bucket width in seconds for a query spanning `size` seconds.
pub fn get_granularity(size: i64) -> (g: u32)
    ensures
        g == granularity_of(size as int),
        1 <= g <= 86400,
        size <= 0 ==> g == 1,
{
    granularity_for_span(size as i128)
}

/// Table-name suffix of the rollup view covering a span of `size` seconds.
pub fn get_aggregated_views(size: i64) -> (v: &'static str)
    ensures
        v@ == rollup_suffix_of(size as int),
{
    if size < ROLLUP_SPAN_LIMIT {
        "_10m"
    } else {
        "_30m"
    }
}

/// Chooses the aggregation resolution for the half-open time range
/// [`min_date`, `max_date`] (timestamps in seconds). Every span, including a
/// degenerate one, maps to a defined resolution.
pub fn select_granularity(min_date: i64, max_date: i64) -> (r: Resolution)
    ensures
        r@ == resolution_of(max_date - min_date),
        max_date <= min_date ==> r@ == ResolutionView::Bucket(1),
{
    let span: i128 = max_date as i128 - min_date as i128;
    let width: u32 = granularity_for_span(span);
    if width > MAX_BUCKET_WIDTH {
        if span < ROLLUP_SPAN_LIMIT as i128 {
            Resolution::RollupView(String::from_str("10m"))
        } else {
            Resolution::RollupView(String::from_str("30m"))
        }
    } else {
        Resolution::Bucket(width)
    }
}

} // verus!
