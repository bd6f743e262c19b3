use vstd::prelude::*;

verus! {

/// The dimension that `n` pixels are aligned to: the largest multiple of four
/// that is at most `n`, or four when that would be zero.
pub open spec fn align(n: int) -> int {
    if n < 4 {
        4
    } else {
        n - n % 4
    }
}

/// A pair of dimensions is in alignment when aligning changes neither.
pub open spec fn is_aligned_pair(width: int, height: int) -> bool {
    align(width) == width && align(height) == height
}

/// The aligned replacement of one pixel dimension.
pub fn closest_multiple_4(num: u32) -> (r: u32)
    ensures
        r == align(num as int),
        r >= 4,
        r % 4 == 0,
{
    let adjusted_num: u32 = num - num % 4;
    if adjusted_num > 0 {
        adjusted_num
    } else {
        4
    }
}

/// The target dimensions of an image, and whether they differ from its own.
#[derive(Clone, Copy, Debug, PartialEq, Eq, Structural)]
pub struct Plan {
    pub width: u32,
    pub height: u32,
    pub changed: bool,
}

/// Plans the aligned dimensions of a `width` by `height` image.
pub fn plan(width: u32, height: u32) -> (r: Plan)
    ensures
        r.width == align(width as int),
        r.height == align(height as int),
        r.changed == !is_aligned_pair(width as int, height as int),
{
    let w = closest_multiple_4(width);
    let h = closest_multiple_4(height);
    Plan { width: w, height: h, changed: w != width || h != height }
}

/// From four pixels up, aligning never grows a dimension, lands on a multiple
/// of four, and removes fewer than four pixels.
pub proof fn lemma_align_floor(n: int)
    requires
        n >= 4,
    ensures
        align(n) <= n,
        align(n) % 4 == 0,
        n - align(n) < 4,
{
}

/// A dimension of one to three pixels is raised to four.
pub proof fn lemma_align_small(n: int)
    requires
        1 <= n <= 3,
    ensures
        align(n) == 4,
{
}

/// Every aligned dimension is a positive multiple of four.
pub proof fn lemma_align_is_multiple(n: int)
    ensures
        align(n) >= 4,
        align(n) % 4 == 0,
{
}

/// Aligning an aligned dimension changes nothing.
pub proof fn lemma_align_idempotent(n: int)
    ensures
        align(align(n)) == align(n),
{
}

/// Aligning preserves the order of dimensions.
pub proof fn lemma_align_monotone(m: int, n: int)
    requires
        0 < m <= n,
    ensures
        align(m) <= align(n),
{
}

/// A positive dimension is left unchanged exactly when it is a multiple of
/// four.
pub proof fn lemma_align_fixed_points(n: int)
    requires
        n > 0,
    ensures
        align(n) == n <==> n % 4 == 0,
{
}

} // verus!
