//! The extent of a line graph: what its points span along each axis.
use vstd::prelude::*;

verus! {

/// The span of a graph's points: the first and last `x`, the lowest and highest `y`.
#[derive(Debug, Clone, Copy, PartialEq, Eq, Structural)]
pub struct GraphExtent {
    pub first: i32,
    pub last: i32,
    pub lowest: i32,
    pub highest: i32,
}

/// The `x` coordinates of the points.
pub open spec fn xs(points: Seq<(i32, i32)>) -> Seq<int> {
    points.map_values(|p: (i32, i32)| p.0 as int)
}

/// The `y` coordinates of the points.
pub open spec fn ys(points: Seq<(i32, i32)>) -> Seq<int> {
    points.map_values(|p: (i32, i32)| p.1 as int)
}

/// `m` is the least of `v`.
pub open spec fn is_least(v: Seq<int>, m: int) -> bool {
    &&& exists|i: int| 0 <= i < v.len() && v[i] == m
    &&& forall|i: int| 0 <= i < v.len() ==> v[i] >= m
}

/// `m` is the greatest of `v`.
pub open spec fn is_greatest(v: Seq<int>, m: int) -> bool {
    &&& exists|i: int| 0 <= i < v.len() && v[i] == m
    &&& forall|i: int| 0 <= i < v.len() ==> v[i] <= m
}

/// The values can be scaled onto an axis: there are some, not all equal, and the spread
/// between any two fits in an `i32`.
pub open spec fn spread_usable(v: Seq<int>) -> bool {
    &&& v.len() > 0
    &&& exists|i: int, j: int| 0 <= i < v.len() && 0 <= j < v.len() && v[i] != v[j]
    &&& forall|i: int, j: int| 0 <= i < v.len() && 0 <= j < v.len() ==> v[i] - v[j] <= i32::MAX
}

/// The span of `points`, if the graph can be drawn: `None` when there are no points, when all
/// have the same `x` or the same `y`, or when a span does not fit in an `i32`.
pub fn graph_extent(points: &Vec<(i32, i32)>) -> (r: Option<GraphExtent>)
    ensures
        r is Some <==> spread_usable(xs(points@)) && spread_usable(ys(points@)),
        r matches Some(e) ==> is_least(xs(points@), e.first as int) && is_greatest(
            xs(points@),
            e.last as int,
        ) && is_least(ys(points@), e.lowest as int) && is_greatest(ys(points@), e.highest as int),
{
    if points.len() == 0 {
        return None;
    }
    let ghost px = xs(points@);
    let ghost py = ys(points@);
    let mut first = points[0].0;
    let mut last = points[0].0;
    let mut lowest = points[0].1;
    let mut highest = points[0].1;
    let mut ifirst: usize = 0;
    let mut ilast: usize = 0;
    let mut ilow: usize = 0;
    let mut ihigh: usize = 0;
    let mut i: usize = 1;
    while i < points.len()
        invariant
            1 <= i <= points@.len(),
            px == xs(points@),
            py == ys(points@),
            ifirst < i && ilast < i && ilow < i && ihigh < i,
            px[ifirst as int] == first && px[ilast as int] == last,
            py[ilow as int] == lowest && py[ihigh as int] == highest,
            forall|k: int| 0 <= k < i ==> first <= #[trigger] px[k] <= last,
            forall|k: int| 0 <= k < i ==> lowest <= #[trigger] py[k] <= highest,
        decreases points@.len() - i,
    {
        let (x, y) = points[i];
        if x < first {
            first = x;
            ifirst = i;
        }
        if x > last {
            last = x;
            ilast = i;
        }
        if y < lowest {
            lowest = y;
            ilow = i;
        }
        if y > highest {
            highest = y;
            ihigh = i;
        }
        i = i + 1;
    }
    proof {
        assert(is_least(px, first as int));
        assert(is_greatest(px, last as int));
        assert(is_least(py, lowest as int));
        assert(is_greatest(py, highest as int));
    }
    let dx = last as i64 - first as i64;
    let dy = highest as i64 - lowest as i64;
    if dx == 0 || dx > i32::MAX as i64 || dy == 0 || dy > i32::MAX as i64 {
        proof {
            if dx == 0 {
                assert forall|a: int, b: int| 0 <= a < px.len() && 0 <= b < px.len() implies px[a]
                    == px[b] by {
                    assert(first <= px[a] <= last);
                    assert(first <= px[b] <= last);
                }
            }
            if dy == 0 {
                assert forall|a: int, b: int| 0 <= a < py.len() && 0 <= b < py.len() implies py[a]
                    == py[b] by {
                    assert(lowest <= py[a] <= highest);
                    assert(lowest <= py[b] <= highest);
                }
            }
            if dx > i32::MAX as i64 {
                assert(px[ilast as int] - px[ifirst as int] > i32::MAX);
            }
            if dy > i32::MAX as i64 {
                assert(py[ihigh as int] - py[ilow as int] > i32::MAX);
            }
        }
        None
    } else {
        proof {
            assert(px[ilast as int] != px[ifirst as int]);
            assert(py[ihigh as int] != py[ilow as int]);
            assert forall|a: int, b: int| 0 <= a < px.len() && 0 <= b < px.len() implies px[a]
                - px[b] <= i32::MAX by {
                assert(first <= px[a] <= last);
                assert(first <= px[b] <= last);
            }
            assert forall|a: int, b: int| 0 <= a < py.len() && 0 <= b < py.len() implies py[a]
                - py[b] <= i32::MAX by {
                assert(lowest <= py[a] <= highest);
                assert(lowest <= py[b] <= highest);
            }
        }
        Some(GraphExtent { first, last, lowest, highest })
    }
}

} // verus!
