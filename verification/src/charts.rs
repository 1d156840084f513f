use crate::historical::HistoricalData;
use vstd::prelude::*;

verus! {

/// Upper bound on a close accepted by the chart scaler; it keeps the
/// padded bounds, counted in tenths of a cent, inside machine range.
pub const MAX_CHART_CENTS: u64 = 1_000_000_000_000_000;

/// Highest close over the series, in cents (zero for an empty series).
pub open spec fn max_close(s: Seq<HistoricalData>) -> int
    decreases s.len(),
{
    if s.len() == 0 {
        0int
    } else {
        let rest = max_close(s.drop_last());
        if s.last().c >= rest {
            s.last().c as int
        } else {
            rest
        }
    }
}

/// Lowest close over the series, in cents (zero for an empty series).
pub open spec fn min_close(s: Seq<HistoricalData>) -> int
    decreases s.len(),
{
    if s.len() == 0 {
        0int
    } else if s.len() == 1 {
        s[0].c as int
    } else {
        let rest = min_close(s.drop_last());
        if s.last().c <= rest {
            s.last().c as int
        } else {
            rest
        }
    }
}

/// Latest bar timestamp of the series, in milliseconds.
pub open spec fn max_time(s: Seq<HistoricalData>) -> int
    decreases s.len(),
{
    if s.len() == 0 {
        0int
    } else {
        let rest = max_time(s.drop_last());
        if s.last().t >= rest {
            s.last().t as int
        } else {
            rest
        }
    }
}

/// Earliest bar timestamp of the series, in milliseconds.
pub open spec fn min_time(s: Seq<HistoricalData>) -> int
    decreases s.len(),
{
    if s.len() == 0 {
        0int
    } else if s.len() == 1 {
        s[0].t as int
    } else {
        let rest = min_time(s.drop_last());
        if s.last().t <= rest {
            s.last().t as int
        } else {
            rest
        }
    }
}

/// On a nonempty series whose closes stay under the limit, the extreme
/// closes are ordered and bounded.
pub proof fn lemma_close_extremes(s: Seq<HistoricalData>, limit: int)
    requires
        s.len() > 0,
        forall|i: int| 0 <= i < s.len() ==> s[i].c <= limit,
    ensures
        0 <= min_close(s),
        min_close(s) <= max_close(s),
        max_close(s) <= limit,
    decreases s.len(),
{
    if s.len() > 1 {
        assert(forall|i: int| 0 <= i < s.len() - 1 ==> s.drop_last()[i] == s[i]);
        assert(forall|i: int|
            0 <= i < s.drop_last().len() ==> #[trigger] s.drop_last()[i].c <= limit);
        lemma_close_extremes(s.drop_last(), limit);
    } else {
        assert(max_close(s.drop_last()) == 0);
    }
}

/// Every close of the series lies between its extreme closes.
pub proof fn lemma_extremes_bound_all(s: Seq<HistoricalData>, i: int)
    requires
        0 <= i < s.len(),
    ensures
        min_close(s) <= s[i].c,
        s[i].c <= max_close(s),
    decreases s.len(),
{
    if s.len() > 1 && i < s.len() - 1 {
        assert(s.drop_last()[i] == s[i]);
        lemma_extremes_bound_all(s.drop_last(), i);
    }
}

/// Axis bounds for the close-price line chart.
#[derive(Clone, Copy, PartialEq, Eq, Structural, Debug)]
pub struct ChartBounds {
    pub t_min: u64,
    pub t_max: u64,
    pub y_lo_tenths: i64,
    pub y_hi_tenths: i64,
}

/// Axis bounds for charting a historical series: the x-axis spans the
/// earliest to the latest bar timestamp, and the y-axis spans the lowest
/// to the highest close padded by a tenth of their spread on each side.
/// The y values are counted in tenths of a cent, which makes the
/// ten-percent padding exact instead of rounded.
pub fn chart_bounds(bars: &Vec<HistoricalData>) -> (r: ChartBounds)
    requires
        bars@.len() > 0,
        forall|i: int| 0 <= i < bars@.len() ==> bars@[i].c <= MAX_CHART_CENTS,
    ensures
        r.t_min == min_time(bars@),
        r.t_max == max_time(bars@),
        r.y_lo_tenths == 10 * min_close(bars@) - (max_close(bars@) - min_close(bars@)),
        r.y_hi_tenths == 10 * max_close(bars@) + (max_close(bars@) - min_close(bars@)),
        r.y_lo_tenths <= r.y_hi_tenths,
{
    let ghost s = bars@;
    let mut min_c: u64 = bars[0].c;
    let mut max_c: u64 = bars[0].c;
    let mut min_t: u64 = bars[0].t;
    let mut max_t: u64 = bars[0].t;
    let mut i: usize = 1;
    proof {
        assert(s.take(1) =~= seq![s[0]]);
        assert(seq![s[0]].drop_last() =~= Seq::<HistoricalData>::empty());
        assert(max_close(Seq::<HistoricalData>::empty()) == 0);
        assert(max_time(Seq::<HistoricalData>::empty()) == 0);
        assert(max_close(seq![s[0]]) == s[0].c);
        assert(max_time(seq![s[0]]) == s[0].t);
    }
    while i < bars.len()
        invariant
            1 <= i <= s.len(),
            s == bars@,
            min_c == min_close(s.take(i as int)),
            max_c == max_close(s.take(i as int)),
            min_t == min_time(s.take(i as int)),
            max_t == max_time(s.take(i as int)),
        decreases s.len() - i,
    {
        proof {
            assert(s.take(i as int + 1).drop_last() =~= s.take(i as int));
            assert(s.take(i as int + 1).last() == s[i as int]);
        }
        let bar_c = bars[i].c;
        let bar_t = bars[i].t;
        if bar_c < min_c {
            min_c = bar_c;
        }
        if bar_c > max_c {
            max_c = bar_c;
        }
        if bar_t < min_t {
            min_t = bar_t;
        }
        if bar_t > max_t {
            max_t = bar_t;
        }
        i = i + 1;
    }
    proof {
        assert(s.take(s.len() as int) =~= s);
        lemma_close_extremes(s, MAX_CHART_CENTS as int);
    }
    let spread: u64 = max_c - min_c;
    let lo: i64 = 10 * (min_c as i64) - (spread as i64);
    let hi: i64 = 10 * (max_c as i64) + (spread as i64);
    ChartBounds { t_min: min_t, t_max: max_t, y_lo_tenths: lo, y_hi_tenths: hi }
}

} // verus!
