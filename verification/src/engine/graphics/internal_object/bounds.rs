//! Bounds of a local-space shape given as a flat list of coordinates.
//!
//! A list `x0, y0, x1, y1, ..` holds one vertex per pair; a trailing
//! coordinate without a partner belongs to no vertex.

use vstd::prelude::*;

verus! {

/// The number of vertices in a flat list of coordinates.
pub open spec fn vertex_count(data: Seq<i32>) -> nat {
    (data.len() / 2) as nat
}

/// The coordinates on one axis: `offset` 0 selects x, `offset` 1 selects y.
pub open spec fn coordinates(data: Seq<i32>, offset: int) -> Seq<int> {
    Seq::new(vertex_count(data), |i: int| data[2 * i + offset] as int)
}

/// The squared distance of each vertex from the local origin.
pub open spec fn squared_norms(data: Seq<i32>) -> Seq<int> {
    Seq::new(vertex_count(data), |i: int| data[2 * i] * data[2 * i] + data[2 * i + 1] * data[2 * i + 1])
}

/// The largest coordinate on an axis minus the smallest; 0 for a shape
/// without vertices.
pub open spec fn extent(data: Seq<i32>, offset: int) -> int {
    coordinates(data, offset).max() - coordinates(data, offset).min()
}

/// The largest squared distance of a vertex from the local origin; 0 for a
/// shape without vertices.
pub open spec fn radius_squared(data: Seq<i32>) -> int {
    squared_norms(data).max()
}

/// A value that bounds a sequence from above and occurs in it is its maximum.
pub proof fn lemma_max_is_unique(s: Seq<int>, m: int, at: int)
    requires
        0 <= at < s.len(),
        s[at] == m,
        forall|i: int| 0 <= i < s.len() ==> s[i] <= m,
    ensures
        s.max() == m,
{
    s.max_ensures();
    let j = choose|j: int| 0 <= j < s.len() && s[j] == s.max();
    assert(s[j] <= m);
    assert(s[at] <= s.max());
}

/// A value that bounds a sequence from below and occurs in it is its minimum.
pub proof fn lemma_min_is_unique(s: Seq<int>, m: int, at: int)
    requires
        0 <= at < s.len(),
        s[at] == m,
        forall|i: int| 0 <= i < s.len() ==> m <= s[i],
    ensures
        s.min() == m,
{
    s.min_ensures();
    let j = choose|j: int| 0 <= j < s.len() && s[j] == s.min();
    assert(m <= s[j]);
    assert(s.min() <= s[at]);
}

/// The extent of the shape on one axis.
pub fn axis_extent(data: &Vec<i32>, offset: usize) -> (spread: i64)
    requires
        offset <= 1,
    ensures
        spread == extent(data@, offset as int),
        0 <= spread <= 0xffff_ffff,
{
    let count: usize = data.len() / 2;
    if count == 0 {
        assert(coordinates(data@, offset as int).len() == 0);
        return 0;
    }
    let ghost axis = coordinates(data@, offset as int);
    let mut low: i32 = data[offset];
    let mut high: i32 = data[offset];
    let ghost mut low_at: int = 0;
    let ghost mut high_at: int = 0;
    let mut i: usize = 1;
    while i < count
        invariant
            1 <= i <= count,
            count == data.len() / 2,
            offset <= 1,
            axis == coordinates(data@, offset as int),
            0 <= low_at < i,
            0 <= high_at < i,
            axis[low_at] == low,
            axis[high_at] == high,
            forall|j: int| 0 <= j < i ==> low <= #[trigger] axis[j] && axis[j] <= high,
        decreases count - i,
    {
        let value: i32 = data[2 * i + offset];
        assert(axis[i as int] == value);
        if value < low {
            low = value;
            proof {
                low_at = i as int;
            }
        }
        if value > high {
            high = value;
            proof {
                high_at = i as int;
            }
        }
        i += 1;
    }
    proof {
        lemma_max_is_unique(axis, high as int, high_at);
        lemma_min_is_unique(axis, low as int, low_at);
    }
    (high as i64) - (low as i64)
}

/// The largest squared distance of a vertex from the local origin.
pub fn largest_squared_norm(data: &Vec<i32>) -> (radius: u64)
    ensures
        radius == radius_squared(data@),
        radius <= 0x8000_0000_0000_0000,
{
    let count: usize = data.len() / 2;
    if count == 0 {
        assert(squared_norms(data@).len() == 0);
        return 0;
    }
    let ghost norms = squared_norms(data@);
    let mut best: u64 = 0;
    let ghost mut best_at: int = 0;
    let mut i: usize = 0;
    while i < count
        invariant
            0 <= i <= count,
            count == data.len() / 2,
            norms == squared_norms(data@),
            i > 0 ==> 0 <= best_at < i && norms[best_at] == best,
            forall|j: int| 0 <= j < i ==> norms[j] <= best,
            best <= 0x8000_0000_0000_0000,
        decreases count - i,
    {
        let x: i64 = data[2 * i] as i64;
        let y: i64 = data[2 * i + 1] as i64;
        assert(0 <= x * x <= 0x4000_0000_0000_0000) by (nonlinear_arith)
            requires
                -0x8000_0000 <= x <= 0x8000_0000,
        ;
        assert(0 <= y * y <= 0x4000_0000_0000_0000) by (nonlinear_arith)
            requires
                -0x8000_0000 <= y <= 0x8000_0000,
        ;
        let norm: u64 = (x * x) as u64 + (y * y) as u64;
        assert(norms[i as int] == norm);
        if i == 0 || norm > best {
            best = norm;
            proof {
                best_at = i as int;
            }
        }
        i += 1;
    }
    proof {
        lemma_max_is_unique(norms, best as int, best_at);
    }
    best
}

} // verus!
