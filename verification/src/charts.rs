//! The demo chart data, in exact fixed-point milli-units (one unit is
//! 1000 milli-units): the box plot's five-number summary, the stacked bar
//! chart's four series and their running totals, and the argument grid of
//! the Gaussian histogram.
use vstd::prelude::*;

verus! {

/// A five-number summary for a box plot, in milli-units. Well-formed when
/// the five values are in ascending order.
#[derive(Clone, Copy, Debug, PartialEq, Eq, Structural)]
pub struct BoxSpreadMilli {
    pub lower_whisker: i64,
    pub quartile1: i64,
    pub median: i64,
    pub quartile3: i64,
    pub upper_whisker: i64,
}

impl BoxSpreadMilli {
    pub open spec fn wf(self) -> bool {
        self.lower_whisker <= self.quartile1 <= self.median <= self.quartile3
            <= self.upper_whisker
    }
}

/// One box-plot element: its position on the axis, its spread, and the
/// width of the drawn box, all in milli-units.
#[derive(Clone, Copy, Debug, PartialEq, Eq, Structural)]
pub struct BoxElemMilli {
    pub x_milli: i64,
    pub spread: BoxSpreadMilli,
    pub box_width_milli: i64,
}

impl BoxElemMilli {
    pub open spec fn wf(self) -> bool {
        self.spread.wf()
    }
}

/// The fixed sample element of the demo box plot: "Day 1" at position 0.5
/// with spread (1.5, 1.8, 2.3, 2.6, 3.0) and box width 10.
pub open spec fn spec_demo_box_elem() -> BoxElemMilli {
    BoxElemMilli {
        x_milli: 500,
        spread: BoxSpreadMilli {
            lower_whisker: 1500,
            quartile1: 1800,
            median: 2300,
            quartile3: 2600,
            upper_whisker: 3000,
        },
        box_width_milli: 10000,
    }
}

/// Builds the demo box plot's sample element.
pub fn demo_box_elem() -> (r: BoxElemMilli)
    ensures
        r == spec_demo_box_elem(),
        r.wf(),
{
    BoxElemMilli {
        x_milli: 500,
        spread: BoxSpreadMilli {
            lower_whisker: 1500,
            quartile1: 1800,
            median: 2300,
            quartile3: 2600,
            upper_whisker: 3000,
        },
        box_width_milli: 10000,
    }
}

/// Heights of the four demo bar series, in milli-units, at the five shared
/// positions: set 1 is 1, 3, 1, 2, 4; set 2 is 1, 1.5, 0.1, 0.7, 0.8;
/// set 3 is -0.5, 1, 0.5, -1, 0.3; set 4 is 0.5, 1, 0.5, -0.5, -0.5.
pub open spec fn spec_stacked_heights() -> Seq<Seq<i64>> {
    seq![
        seq![1000i64, 3000i64, 1000i64, 2000i64, 4000i64],
        seq![1000i64, 1500i64, 100i64, 700i64, 800i64],
        seq![-500i64, 1000i64, 500i64, -1000i64, 300i64],
        seq![500i64, 1000i64, 500i64, -500i64, -500i64],
    ]
}

/// Builds the stacked chart's four height series.
pub fn stacked_series_heights() -> (r: Vec<Vec<i64>>)
    ensures
        r.deep_view() == spec_stacked_heights(),
{
    let mut r: Vec<Vec<i64>> = Vec::new();
    r.push(vec![1000, 3000, 1000, 2000, 4000]);
    r.push(vec![1000, 1500, 100, 700, 800]);
    r.push(vec![-500, 1000, 500, -1000, 300]);
    r.push(vec![500, 1000, 500, -500, -500]);
    proof {
        assert(r.deep_view() =~~= spec_stacked_heights());
    }
    r
}

/// The shared bar positions of the stacked chart, in milli-units: the five
/// bars sit at 0.5, 1.5, 2.5, 3.5 and 4.5.
pub fn stacked_bar_xs() -> (r: Vec<i64>)
    ensures
        r@ == seq![500i64, 1500i64, 2500i64, 3500i64, 4500i64],
{
    let mut v: Vec<i64> = Vec::new();
    v.push(500);
    v.push(1500);
    v.push(2500);
    v.push(3500);
    v.push(4500);
    proof {
        assert(v@ =~= seq![500i64, 1500i64, 2500i64, 3500i64, 4500i64]);
    }
    v
}

/// The running total of the stacked chart at series `k`, position `j`: the
/// sum of the heights of series 0 through `k` at that position, which is
/// where the top of series `k`'s bar is drawn once the earlier series are
/// stacked beneath it.
pub open spec fn spec_prefix_sum(h: Seq<Seq<i64>>, k: int, j: int) -> int
    decreases k,
{
    if k <= 0 {
        h[0][j] as int
    } else {
        spec_prefix_sum(h, k - 1, j) + h[k][j]
    }
}

/// A running total over series whose heights stay within one million
/// milli-units stays within (k + 1) million.
pub proof fn lemma_prefix_sum_bound(h: Seq<Seq<i64>>, k: int, j: int)
    requires
        0 <= k < h.len(),
        forall|a: int, b: int| 0 <= a < h.len() && 0 <= b < h[a].len() ==> -1000000 <= (
        #[trigger] h[a][b]) <= 1000000,
        0 <= j,
        forall|a: int| 0 <= a < h.len() ==> j < (#[trigger] h[a]).len(),
    ensures
        -(k + 1) * 1000000 <= spec_prefix_sum(h, k, j) <= (k + 1) * 1000000,
    decreases k,
{
    if k > 0 {
        lemma_prefix_sum_bound(h, k - 1, j);
    }
}

/// Computes the running totals of a rectangular set of bar series: entry
/// `[k][j]` of the result is the sum of `heights[0][j]` through
/// `heights[k][j]`.
pub fn stacked_tops(heights: &Vec<Vec<i64>>) -> (r: Vec<Vec<i64>>)
    requires
        heights@.len() <= 1000,
        forall|k: int| 0 <= k < heights@.len() ==> (#[trigger] heights@[k])@.len()
            == heights@[0]@.len(),
        forall|k: int, j: int|
            0 <= k < heights@.len() && 0 <= j < heights@[k]@.len() ==> -1000000 <= (
            #[trigger] heights@[k]@[j]) <= 1000000,
    ensures
        r@.len() == heights@.len(),
        forall|k: int| 0 <= k < r@.len() ==> (#[trigger] r@[k])@.len() == heights@[k]@.len(),
        forall|k: int, j: int|
            0 <= k < r@.len() && 0 <= j < r@[k]@.len() ==> #[trigger] r@[k]@[j]
                == spec_prefix_sum(heights.deep_view(), k, j),
{
    let ghost hdv = heights.deep_view();
    proof {
        assert(forall|a: int, b: int|
            0 <= a < hdv.len() && 0 <= b < hdv[a].len() ==> #[trigger] hdv[a][b] == heights@[a]@[b]);
    }
    let m = heights.len();
    let mut r: Vec<Vec<i64>> = Vec::new();
    let mut k: usize = 0;
    while k < m
        invariant
            k <= m,
            m == heights@.len(),
            m <= 1000,
            hdv == heights.deep_view(),
            forall|a: int| 0 <= a < m ==> (#[trigger] heights@[a])@.len() == heights@[0]@.len(),
            forall|a: int, b: int|
                0 <= a < m && 0 <= b < heights@[a]@.len() ==> -1000000 <= (
                #[trigger] heights@[a]@[b]) <= 1000000,
            r@.len() == k,
            forall|a: int| 0 <= a < k ==> (#[trigger] r@[a])@.len() == heights@[0]@.len(),
            forall|a: int, b: int|
                0 <= a < k && 0 <= b < r@[a]@.len() ==> #[trigger] r@[a]@[b] == spec_prefix_sum(
                    hdv,
                    a,
                    b,
                ),
        decreases m - k,
    {
        let row = &heights[k];
        let mut out: Vec<i64> = Vec::new();
        let mut j: usize = 0;
        while j < row.len()
            invariant
                k < m,
                m == heights@.len(),
                m <= 1000,
                hdv == heights.deep_view(),
                row == heights@[k as int],
                forall|a: int| 0 <= a < m ==> (#[trigger] heights@[a])@.len()
                    == heights@[0]@.len(),
                forall|a: int, b: int|
                    0 <= a < m && 0 <= b < heights@[a]@.len() ==> -1000000 <= (
                    #[trigger] heights@[a]@[b]) <= 1000000,
                r@.len() == k,
                forall|a: int| 0 <= a < k ==> (#[trigger] r@[a])@.len() == heights@[0]@.len(),
                forall|a: int, b: int|
                    0 <= a < k && 0 <= b < r@[a]@.len() ==> #[trigger] r@[a]@[b]
                        == spec_prefix_sum(hdv, a, b),
                j <= row@.len(),
                out@.len() == j,
                forall|b: int| 0 <= b < j ==> #[trigger] out@[b] == spec_prefix_sum(
                    hdv,
                    k as int,
                    b,
                ),
            decreases row@.len() - j,
        {
            let h = row[j];
            proof {
                assert(hdv[k as int][j as int] == heights@[k as int]@[j as int]);
            }
            let top: i64 = if k == 0 {
                h
            } else {
                proof {
                    lemma_prefix_sum_bound(hdv, k as int - 1, j as int);
                }
                let prev = r[k - 1][j];
                prev + h
            };
            out.push(top);
            j = j + 1;
        }
        r.push(out);
        k = k + 1;
    }
    r
}

/// The argument grid of the histogram window's Gaussian curve: the points
/// -3.95, -3.85, ..., 3.85, 3.95, in milli-units (80 points, 0.1 apart,
/// both endpoints included).
pub fn gaussian_xs() -> (r: Vec<i64>)
    ensures
        r@.len() == 80,
        forall|i: int| 0 <= i < 80 ==> #[trigger] r@[i] == -3950 + 100 * i,
{
    let mut v: Vec<i64> = Vec::new();
    let mut x: i64 = -3950;
    while x <= 3950
        invariant
            -3950 <= x <= 4050,
            x == -3950 + 100 * v@.len(),
            forall|i: int| 0 <= i < v@.len() ==> #[trigger] v@[i] == -3950 + 100 * i,
        decreases 4050 - x,
    {
        v.push(x);
        x = x + 100;
    }
    v
}

} // verus!
