//! The forecast chart: pairwise downsampling and rescaling to the chart height.
use vstd::prelude::*;
use vstd::string::StringExecFns;
use crate::text::append_decimal;
use crate::text::append_two_digits;
use crate::text::decimal;
use crate::text::digit_char;

verus! {

/// Samples in a forecast: one per five minutes over a day.
pub const FORECAST_LEN: usize = 288;

/// Height of the chart in pixels.
pub const CHART_HEIGHT: i64 = 45;

/// The largest element of a non-empty sequence.
pub open spec fn seq_max(s: Seq<i32>) -> int
    decreases s.len(),
{
    if s.len() <= 1 {
        s[0] as int
    } else {
        let m = seq_max(s.drop_last());
        if s.last() > m {
            s.last() as int
        } else {
            m
        }
    }
}

/// `seq_max` is an element and bounds every element.
pub proof fn lemma_seq_max(s: Seq<i32>)
    requires
        s.len() > 0,
    ensures
        exists|k: int| 0 <= k < s.len() && s[k] == seq_max(s),
        forall|j: int| 0 <= j < s.len() ==> s[j] <= seq_max(s),
    decreases s.len(),
{
    if s.len() > 1 {
        lemma_seq_max(s.drop_last());
        let k = choose|k: int| 0 <= k < s.drop_last().len() && s.drop_last()[k] == seq_max(s.drop_last());
        if s.last() <= seq_max(s.drop_last()) {
            assert(s[k] == seq_max(s));
        } else {
            assert(s[s.len() - 1] == seq_max(s));
        }
        assert forall|j: int| 0 <= j < s.len() implies s[j] <= seq_max(s) by {
            if j < s.len() - 1 {
                assert(s[j] == s.drop_last()[j]);
            }
        }
    } else {
        assert(s[0] == seq_max(s));
    }
}

/// The largest sample, or `None` for an empty slice.
pub fn max_in_slice(slice: &[i32]) -> (r: Option<i32>)
    ensures
        slice@.len() == 0 ==> r is None,
        slice@.len() > 0 ==> r == Some(seq_max(slice@) as i32),
{
    if slice.len() == 0 {
        return None;
    }
    let mut m: i32 = slice[0];
    let mut i: usize = 1;
    assert(slice@.take(1) =~= seq![slice@[0]]);
    while i < slice.len()
        invariant
            1 <= i <= slice@.len(),
            m as int == seq_max(slice@.take(i as int)),
        decreases slice@.len() - i,
    {
        assert(slice@.take(i as int + 1).drop_last() =~= slice@.take(i as int));
        if slice[i] > m {
            m = slice[i];
        }
        i = i + 1;
    }
    assert(slice@.take(i as int) =~= slice@);
    Some(m)
}

/// Number of points after pairing up `n` samples.
pub open spec fn group_count(n: int) -> int {
    (n + 1) / 2
}

/// Number of samples in group `k`: two, or one for an unpaired last sample.
pub open spec fn group_len(s: Seq<i32>, k: int) -> int {
    if 2 * k + 1 < s.len() {
        2
    } else {
        1
    }
}

/// Sum of the samples in group `k`.
pub open spec fn group_sum(s: Seq<i32>, k: int) -> int {
    if 2 * k + 1 < s.len() {
        s[2 * k] + s[2 * k + 1]
    } else {
        s[2 * k] as int
    }
}

/// `n / d` rounded to the nearest integer, halves away from zero.
pub open spec fn round_div(n: int, d: int) -> int
    recommends
        d != 0,
{
    if d < 0 {
        round_div_pos(-n, -d)
    } else {
        round_div_pos(n, d)
    }
}

/// `round_div` for a positive divisor.
pub open spec fn round_div_pos(n: int, d: int) -> int {
    if n >= 0 {
        (2 * n + d) / (2 * d)
    } else {
        -((-2 * n + d) / (2 * d))
    }
}

/// The height of a point whose group sums to `sum` over `count` samples:
/// the average over `max`, times the chart height, rounded. A zero maximum
/// gives height zero.
pub open spec fn scale(sum: int, count: int, max: int) -> int {
    if max == 0 {
        0
    } else {
        round_div(sum * CHART_HEIGHT, count * max)
    }
}

/// The height of point `k` of the chart of `s`.
pub open spec fn point_height(s: Seq<i32>, k: int) -> int {
    scale(group_sum(s, k), group_len(s, k), seq_max(s))
}

fn round_div_pos_exec(n: i64, d: i64) -> (r: i64)
    requires
        0 < d <= 0x1_0000_0000,
        -0x100_0000_0000_0000 <= n <= 0x100_0000_0000_0000,
    ensures
        r == round_div_pos(n as int, d as int),
{
    if n >= 0 {
        (2 * n + d) / (2 * d)
    } else {
        let m: i64 = 0 - n;
        let q: i64 = (2 * m + d) / (2 * d);
        assert(0 <= q <= 2 * m + d) by (nonlinear_arith)
            requires
                q == (2 * m + d) / (2 * d),
                m > 0,
                d > 0,
        ;
        0 - q
    }
}

/// Rescales the samples to point heights: each consecutive pair (or the
/// unpaired last sample) is averaged and scaled so that the maximum maps to
/// the chart height. `None` for an empty slice.
pub fn rescale(samples: &[i32]) -> (r: Option<Vec<i64>>)
    ensures
        samples@.len() == 0 <==> r is None,
        r matches Some(v) ==> v@.len() == group_count(samples@.len() as int) && forall|k: int|
            0 <= k < v@.len() ==> #[trigger] v@[k] == point_height(samples@, k),
{
    let max = match max_in_slice(samples) {
        Some(m) => m,
        None => {
            return None;
        },
    };
    proof {
        lemma_seq_max(samples@);
    }
    let n = samples.len();
    let mut out: Vec<i64> = Vec::new();
    let mut k: usize = 0;
    while k < n / 2 + n % 2
        invariant
            n == samples@.len(),
            n > 0,
            max as int == seq_max(samples@),
            out@.len() == k,
            2 * k <= n + 1,
            forall|j: int| 0 <= j < k ==> #[trigger] out@[j] == point_height(samples@, j),
        decreases n / 2 + n % 2 - k,
    {
        let (sum, count): (i64, i64) = if 2 * k + 1 < n {
            (samples[2 * k] as i64 + samples[2 * k + 1] as i64, 2)
        } else {
            (samples[2 * k] as i64, 1)
        };
        let h: i64 = if max == 0 {
            0
        } else if max > 0 {
            round_div_pos_exec(sum * 45, count * max as i64)
        } else {
            round_div_pos_exec(-(sum * 45), -(count * max as i64))
        };
        out.push(h);
        k = k + 1;
    }
    assert(out@.len() == group_count(n as int));
    Some(out)
}

/// Farthest a chart point is drawn from the baseline, up or down.
pub const CHART_REACH: i64 = 0x8000;

/// `v` limited to the reach of the chart.
pub open spec fn clamp_reach(v: int) -> int {
    if v < -CHART_REACH {
        -CHART_REACH as int
    } else if v > CHART_REACH {
        CHART_REACH as int
    } else {
        v
    }
}

/// Left end of the chart's polyline.
pub const CHART_X: i32 = 151;

/// Baseline of the chart's polyline.
pub const CHART_Y: i32 = 120;

/// The polyline of a chart with point heights `h`: one pixel to the right
/// per point, heights measured up from the baseline and cut off beyond the
/// chart's reach.
pub open spec fn chart_points(h: Seq<i64>) -> Seq<(i32, i32)> {
    Seq::new(
        h.len(),
        |k: int| ((CHART_X + k) as i32, (CHART_Y - clamp_reach(h[k] as int)) as i32),
    )
}

/// The points of the polyline for heights `h`.
pub fn polyline_points(h: &Vec<i64>) -> (r: Vec<(i32, i32)>)
    requires
        h@.len() <= CHART_REACH,
    ensures
        r@ == chart_points(h@),
        forall|i: int| 0 <= i < r@.len() ==> -0x10000 <= #[trigger] r@[i].0 <= 0x10000 && -0x10000
            <= r@[i].1 <= 0x10000,
{
    let mut r: Vec<(i32, i32)> = Vec::new();
    let mut k: usize = 0;
    while k < h.len()
        invariant
            h@.len() <= CHART_REACH,
            r@.len() == k,
            k <= h@.len(),
            forall|j: int| 0 <= j < k ==> #[trigger] r@[j] == chart_points(h@)[j],
        decreases h@.len() - k,
    {
        let v = h[k];
        let reach: i64 = if v < -CHART_REACH {
            -CHART_REACH
        } else if v > CHART_REACH {
            CHART_REACH
        } else {
            v
        };
        let y: i32 = CHART_Y - reach as i32;
        r.push((CHART_X + k as i32, y));
        k = k + 1;
    }
    assert(r@ =~= chart_points(h@));
    r
}

/// The hundredths of a kW that `v` thousandths make, rounded half away from zero.
pub open spec fn hundredths(v: int) -> int {
    round_div(v, 10)
}

/// The maximum as the chart shows it: kW with two decimals and a " kW" suffix.
pub open spec fn kw_label(v: int) -> Seq<char> {
    let h = hundredths(v);
    let a = if h < 0 { -h } else { h };
    let sign: Seq<char> = if h < 0 { seq!['-'] } else { seq![] };
    sign + decimal((a / 100) as nat) + seq!['.'] + seq![digit_char((a % 100) / 10), digit_char(a % 10)]
        + seq![' ', 'k', 'W']
}

/// Formats the chart maximum `v` (kW times 1000).
pub fn max_label(v: i32) -> (r: String)
    ensures
        r@ == kw_label(v as int),
{
    let neg = v < 0;
    let magnitude: i64 = if neg { 0 - v as i64 } else { v as i64 };
    let a: i64 = (2 * magnitude + 10) / 20;
    assert(0 <= a <= magnitude) by (nonlinear_arith)
        requires
            a == (2 * magnitude + 10) / 20,
            magnitude >= 0,
    ;
    assert(a == (if hundredths(v as int) < 0 { -hundredths(v as int) } else { hundredths(v as int) }));
    proof {
        reveal_strlit("");
        reveal_strlit("-");
        reveal_strlit(".");
        reveal_strlit(" kW");
    }
    let mut r = if neg && a > 0 { String::from_str("-") } else { String::from_str("") };
    append_decimal(&mut r, (a / 100) as u32);
    r.append(".");
    append_two_digits(&mut r, (a % 100) as u32);
    r.append(" kW");
    assert(" kW"@ =~= seq![' ', 'k', 'W']);
    assert(((a % 100) as u32 / 10) as int == (a % 100) / 10);
    assert(((a % 100) as u32 % 10) as int == a % 10);
    assert(r@ =~= kw_label(v as int));
    r
}

/// Where the maximum's label starts: two pixels further left from 10 kW on.
pub open spec fn label_x(max: int) -> int {
    if max >= 10000 {
        143
    } else {
        145
    }
}

} // verus!
