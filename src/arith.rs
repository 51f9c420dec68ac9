use vstd::prelude::*;

verus! {

/// The sum of `x` and `y`, lowered by 25 when it exceeds 50.
pub open spec fn damped_sum(x: int, y: int) -> int {
    if x + y > 50 {
        x + y - 25
    } else {
        x + y
    }
}

/// Adds two numbers; a sum above 50 is lowered by 25.
pub fn add_num_fnc(x: i32, y: i32) -> (r: i32)
    requires
        i32::MIN <= x + y <= i32::MAX,
    ensures
        r == damped_sum(x as int, y as int),
{
    let rs = x + y;
    if rs > 50i32 {
        return rs - 25i32;
    }
    rs
}

} // verus!
