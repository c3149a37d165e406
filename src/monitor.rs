//! Choosing the monitor that the launcher's window fills.

use vstd::prelude::*;

verus! {

/// The number of pixels of a monitor of this width and height.
pub open spec fn area(size: (u32, u32)) -> int {
    size.0 as int * size.1 as int
}

/// The number of pixels of a monitor of this size; it always fits in `u64`.
pub fn pixel_count(size: (u32, u32)) -> (r: u64)
    ensures
        r as int == area(size),
{
    let (w, h) = size;
    assert(w as int * h as int <= u32::MAX as int * u32::MAX as int) by (nonlinear_arith)
        requires
            w <= u32::MAX,
            h <= u32::MAX,
    ;
    w as u64 * h as u64
}

/// The index of the monitor with the fewest pixels, the first of them on a
/// tie; `None` when there is no monitor.
pub fn smallest_monitor(sizes: &Vec<(u32, u32)>) -> (r: Option<usize>)
    ensures
        r is None <==> sizes@.len() == 0,
        r is Some ==> {
            let k = r->0 as int;
            &&& 0 <= k < sizes@.len()
            &&& forall|j: int| 0 <= j < sizes@.len() ==> area(sizes@[k]) <= area(#[trigger] sizes@[j])
            &&& forall|j: int| 0 <= j < k ==> area(sizes@[k]) < area(#[trigger] sizes@[j])
        },
{
    let n = sizes.len();
    if n == 0 {
        return None;
    }
    let mut best: usize = 0;
    let mut best_area: u64 = pixel_count(sizes[0]);
    let mut i: usize = 1;
    while i < n
        invariant
            n == sizes@.len(),
            1 <= i <= n,
            best < i,
            best_area as int == area(sizes@[best as int]),
            forall|j: int| 0 <= j < i ==> area(sizes@[best as int]) <= area(#[trigger] sizes@[j]),
            forall|j: int| 0 <= j < best ==> area(sizes@[best as int]) < area(#[trigger] sizes@[j]),
        decreases n - i,
    {
        let a = pixel_count(sizes[i]);
        if a < best_area {
            best = i;
            best_area = a;
        }
        i = i + 1;
    }
    Some(best)
}

} // verus!
