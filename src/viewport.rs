use vstd::prelude::*;

verus! {

/// The largest square that fits an area of `available` = `[width, height]`
/// pixels, as `[side, side]`.
pub fn get_max_quadratic_size(available: [usize; 2]) -> (r: [usize; 2])
    ensures
        r[0] == r[1],
        r[0] <= available[0] && r[0] <= available[1],
        r[0] == available[0] || r[0] == available[1],
{
    let min_size = if available[0] < available[1] {
        available[0]
    } else {
        available[1]
    };
    [min_size, min_size]
}

} // verus!
