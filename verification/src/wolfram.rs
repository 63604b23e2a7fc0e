//! The decision cores of the answer-image post-processing: where to cut a
//! composite answer image into labelled slices, and how to pack the slices
//! into groups of bounded height. Both work on plain values — the whiteness
//! of the marker column and the slice heights — extracted from the image at
//! the boundary; the pixel work itself stays outside the library.
use vstd::prelude::*;

verus! {

/// A composite answer image, as raw bytes.
pub struct WolframAlphaSimpleResult {
    pub img: Vec<u8>,
}

/// The first index at or after `y` whose row is not white, or the row count
/// if every remaining row is white.
pub open spec fn skip_white(white: Seq<bool>, y: int) -> int
    decreases white.len() - y,
{
    if y >= white.len() {
        white.len() as int
    } else if white[y] {
        skip_white(white, y + 1)
    } else {
        y
    }
}

/// The slice boundaries read off the marker column, scanning from row `y`
/// with the current slice starting at `top` and `in_marker` telling whether
/// the scan stands inside a marker. A marker beginning at row `y` closes the
/// current slice at `y - 1` (a marker in the very first row only opens the
/// first slice); leaving a marker arms the next cut; whatever is left at the
/// bottom becomes the final slice.
pub open spec fn slice_plan_from(white: Seq<bool>, y: int, top: int, in_marker: bool) -> Seq<
    (int, int),
>
    decreases white.len() - y,
{
    if y >= white.len() {
        if top < white.len() - 1 {
            seq![(top, white.len() - 1)]
        } else {
            Seq::empty()
        }
    } else if !in_marker && !white[y] {
        (if y >= 1 {
            seq![(top, y - 1)]
        } else {
            Seq::empty()
        }) + slice_plan_from(white, y + 1, y, true)
    } else if in_marker && white[y] {
        slice_plan_from(white, y + 1, top, false)
    } else {
        slice_plan_from(white, y + 1, top, in_marker)
    }
}

/// The slice boundaries of a column: leading white rows are skipped, then the
/// scan starts at the top.
pub open spec fn slice_plan(white: Seq<bool>) -> Seq<(int, int)> {
    slice_plan_from(white, skip_white(white, 0), 0, false)
}

/// Skipping white rows lands exactly on the first non-white row.
proof fn lemma_skip_white_char(white: Seq<bool>, y: int, k: int)
    requires
        0 <= y <= k <= white.len(),
        forall|j: int| y <= j < k ==> white[j],
        k < white.len() ==> !white[k],
    ensures
        skip_white(white, y) == k,
    decreases k - y,
{
    if y < k {
        lemma_skip_white_char(white, y + 1, k);
    }
}

proof fn lemma_skip_white_ge(white: Seq<bool>, y: int)
    requires
        0 <= y <= white.len(),
    ensures
        y <= skip_white(white, y) <= white.len(),
    decreases white.len() - y,
{
    if y < white.len() && white[y] {
        lemma_skip_white_ge(white, y + 1);
    }
}

proof fn lemma_slice_plan_from_chained(white: Seq<bool>, y: int, top: int, in_marker: bool)
    requires
        0 <= top <= y,
        top == y ==> in_marker || y == 0,
    ensures
        ({
            let g = slice_plan_from(white, y, top, in_marker);
            &&& (forall|k: int|
                0 <= k < g.len() ==> 0 <= (#[trigger] g[k]).0 <= g[k].1 < white.len())
            &&& (g.len() > 0 ==> g[0].0 == top)
            &&& (forall|k: int| 0 <= k < g.len() - 1 ==> (#[trigger] g[k]).1 + 1 == g[k + 1].0)
        }),
    decreases white.len() - y,
{
    let g = slice_plan_from(white, y, top, in_marker);
    if y >= white.len() {
        if top < white.len() - 1 {
            assert(g =~= seq![(top, white.len() - 1)]);
        }
    } else if !in_marker && !white[y] {
        lemma_slice_plan_from_chained(white, y + 1, y, true);
        let rest = slice_plan_from(white, y + 1, y, true);
        if y >= 1 {
            assert(g =~= seq![(top, y - 1)] + rest);
            assert forall|k: int| 0 <= k < g.len() implies 0 <= (#[trigger] g[k]).0 <= g[k].1
                < white.len() by {
                if k > 0 {
                    assert(g[k] == rest[k - 1]);
                }
            }
            assert forall|k: int| 0 <= k < g.len() - 1 implies (#[trigger] g[k]).1 + 1 == g[k
                + 1].0 by {
                if k > 0 {
                    assert(g[k] == rest[k - 1]);
                }
                assert(g[k + 1] == rest[k]);
            }
        } else {
            assert(g =~= rest);
        }
    } else if in_marker && white[y] {
        lemma_slice_plan_from_chained(white, y + 1, top, false);
    } else {
        lemma_slice_plan_from_chained(white, y + 1, top, in_marker);
    }
}

/// The slices are well-formed and seamless: each is an ascending row range
/// inside the column, the first begins at the top row, and each later slice
/// begins exactly one row below the previous slice's end — no gap, no
/// overlap.
pub proof fn lemma_slice_plan_chained(white: Seq<bool>)
    ensures
        ({
            let g = slice_plan(white);
            &&& (forall|k: int|
                0 <= k < g.len() ==> 0 <= (#[trigger] g[k]).0 <= g[k].1 < white.len())
            &&& (g.len() > 0 ==> g[0].0 == 0)
            &&& (forall|k: int| 0 <= k < g.len() - 1 ==> (#[trigger] g[k]).1 + 1 == g[k + 1].0)
        }),
{
    lemma_skip_white_ge(white, 0);
    lemma_slice_plan_from_chained(white, skip_white(white, 0), 0, false);
}

/// The pair of a slice plan entry, as machine integers.
pub open spec fn pair_model(p: (usize, usize)) -> (int, int) {
    (p.0 as int, p.1 as int)
}

/// Computes the slice boundaries (inclusive row ranges) of a column, given
/// whether each row of the column is white.
pub fn slice_bounds(white: &Vec<bool>) -> (r: Vec<(usize, usize)>)
    ensures
        r@.map_values(|p: (usize, usize)| pair_model(p)) == slice_plan(white@),
{
    let n = white.len();
    let mut y: usize = 0;
    while y < n && white[y]
        invariant
            y <= n,
            n == white@.len(),
            forall|j: int| 0 <= j < y ==> white@[j],
        decreases n - y,
    {
        y = y + 1;
    }
    proof {
        lemma_skip_white_char(white@, 0, y as int);
    }
    let mut r: Vec<(usize, usize)> = Vec::new();
    let mut top: usize = 0;
    let mut in_marker: bool = false;
    while y < n
        invariant
            y <= n,
            n == white@.len(),
            top <= y || top == 0,
            top <= n,
            slice_plan(white@) == r@.map_values(|p: (usize, usize)| pair_model(p))
                + slice_plan_from(white@, y as int, top as int, in_marker),
        decreases n - y,
    {
        let w = white[y];
        if !in_marker && !w {
            if y >= 1 {
                let ghost before = r@;
                r.push((top, y - 1));
                proof {
                    assert(r@.map_values(|p: (usize, usize)| pair_model(p)) =~= before.map_values(
                        |p: (usize, usize)| pair_model(p),
                    ) + seq![(top as int, y - 1)]);
                }
            }
            top = y;
            in_marker = true;
        } else if in_marker && w {
            in_marker = false;
        }
        y = y + 1;
    }
    if n >= 1 && top < n - 1 {
        let ghost before = r@;
        r.push((top, n - 1));
        proof {
            assert(r@.map_values(|p: (usize, usize)| pair_model(p)) =~= before.map_values(
                |p: (usize, usize)| pair_model(p),
            ) + seq![(top as int, n - 1)]);
        }
    }
    r
}

/// The grouping of consecutive slices into height-bounded groups, scanning
/// from index `i` with the current group starting at `start` and standing at
/// accumulated height `acc`: a slice that would push a non-empty group past
/// the bound closes the group and opens a new one; a slice taller than the
/// bound stands in a group of its own.
pub open spec fn group_plan_from(
    heights: Seq<u32>,
    i: int,
    start: int,
    acc: int,
    max_height: u32,
) -> Seq<(int, int)>
    decreases heights.len() - i,
{
    if i >= heights.len() {
        if start < i {
            seq![(start, i)]
        } else {
            Seq::empty()
        }
    } else if acc + heights[i] > max_height && start < i {
        seq![(start, i)] + group_plan_from(heights, i + 1, i, heights[i] as int, max_height)
    } else {
        group_plan_from(heights, i + 1, start, acc + heights[i], max_height)
    }
}

/// The grouping of consecutive slices into height-bounded groups: half-open
/// index ranges over the slice sequence.
pub open spec fn group_plan(heights: Seq<u32>, max_height: u32) -> Seq<(int, int)> {
    group_plan_from(heights, 0, 0, 0, max_height)
}

proof fn lemma_group_plan_from_covers(
    heights: Seq<u32>,
    i: int,
    start: int,
    acc: int,
    max_height: u32,
)
    requires
        0 <= start <= i <= heights.len(),
    ensures
        ({
            let g = group_plan_from(heights, i, start, acc, max_height);
            &&& (start == heights.len() ==> g.len() == 0)
            &&& (start < heights.len() ==> g.len() > 0 && g[0].0 == start && g[g.len() - 1].1
                == heights.len())
            &&& (forall|k: int| 0 <= k < g.len() ==> (#[trigger] g[k]).0 < g[k].1)
            &&& (forall|k: int| 0 <= k < g.len() - 1 ==> (#[trigger] g[k]).1 == g[k + 1].0)
        }),
    decreases heights.len() - i,
{
    let g = group_plan_from(heights, i, start, acc, max_height);
    if i >= heights.len() {
        if start < i {
            assert(g =~= seq![(start, i)]);
        }
    } else if acc + heights[i] > max_height && start < i {
        lemma_group_plan_from_covers(heights, i + 1, i, heights[i] as int, max_height);
        let rest = group_plan_from(heights, i + 1, i, heights[i] as int, max_height);
        assert(g =~= seq![(start, i)] + rest);
        assert(rest.len() > 0 && rest[0].0 == i && rest[rest.len() - 1].1 == heights.len());
        assert(g[g.len() - 1] == rest[rest.len() - 1]);
        assert forall|k: int| 0 <= k < g.len() implies (#[trigger] g[k]).0 < g[k].1 by {
            if k > 0 {
                assert(g[k] == rest[k - 1]);
            }
        }
        assert forall|k: int| 0 <= k < g.len() - 1 implies (#[trigger] g[k]).1 == g[k + 1].0 by {
            if k > 0 {
                assert(g[k] == rest[k - 1]);
            }
            assert(g[k + 1] == rest[k]);
        }
    } else {
        lemma_group_plan_from_covers(heights, i + 1, start, acc + heights[i], max_height);
    }
}

/// The groups partition the slices: every slice index lands in exactly one
/// group — the ranges are non-empty, start at the first slice, chain without
/// gap or overlap, and end at the last slice.
pub proof fn lemma_group_plan_covers(heights: Seq<u32>, max_height: u32)
    ensures
        ({
            let g = group_plan(heights, max_height);
            &&& (heights.len() == 0 ==> g.len() == 0)
            &&& (heights.len() > 0 ==> g.len() > 0 && g[0].0 == 0 && g[g.len() - 1].1
                == heights.len())
            &&& (forall|k: int| 0 <= k < g.len() ==> (#[trigger] g[k]).0 < g[k].1)
            &&& (forall|k: int| 0 <= k < g.len() - 1 ==> (#[trigger] g[k]).1 == g[k + 1].0)
        }),
{
    lemma_group_plan_from_covers(heights, 0, 0, 0, max_height);
}

/// Computes the half-open index ranges that pack consecutive slices of the
/// given heights into groups of height at most `max_height` (except that a
/// single slice taller than the bound forms its own group).
pub fn group_bounds(heights: &Vec<u32>, max_height: u32) -> (r: Vec<(usize, usize)>)
    ensures
        r@.map_values(|p: (usize, usize)| pair_model(p)) == group_plan(heights@, max_height),
{
    let n = heights.len();
    let mut r: Vec<(usize, usize)> = Vec::new();
    let mut start: usize = 0;
    let mut acc: u64 = 0;
    let mut i: usize = 0;
    while i < n
        invariant
            i <= n,
            n == heights@.len(),
            start <= i,
            start == i ==> acc == 0,
            acc <= u32::MAX,
            group_plan(heights@, max_height) == r@.map_values(|p: (usize, usize)| pair_model(p))
                + group_plan_from(heights@, i as int, start as int, acc as int, max_height),
        decreases n - i,
    {
        let h = heights[i] as u64;
        if acc + h > max_height as u64 && start < i {
            let ghost before = r@;
            r.push((start, i));
            proof {
                assert(r@.map_values(|p: (usize, usize)| pair_model(p)) =~= before.map_values(
                    |p: (usize, usize)| pair_model(p),
                ) + seq![(start as int, i as int)]);
            }
            start = i;
            acc = h;
        } else {
            acc = acc + h;
        }
        i = i + 1;
    }
    if start < n {
        let ghost before = r@;
        r.push((start, n));
        proof {
            assert(r@.map_values(|p: (usize, usize)| pair_model(p)) =~= before.map_values(
                |p: (usize, usize)| pair_model(p),
            ) + seq![(start as int, n as int)]);
        }
    }
    r
}

} // verus!
