use vstd::prelude::*;
use vstd::std_specs::cmp::PartialOrdSpec;
use core::cmp::Ordering;

verus! {

/// The value `v` brought into the interval `[lo, hi]`.
pub open spec fn clamp_spec(v: int, lo: int, hi: int) -> int {
    if v < lo {
        lo
    } else if v > hi {
        hi
    } else {
        v
    }
}

/// What `clamp` returns for an order that `PartialOrd` describes by
/// `partial_cmp_spec`: `min` when `value` is below it, else `max` when
/// `value` is above that, else `value`.
pub open spec fn clamp_by_order<T: PartialOrd>(value: T, min: T, max: T) -> T {
    if value.partial_cmp_spec(&min) == Some(Ordering::Less) {
        min
    } else if value.partial_cmp_spec(&max) == Some(Ordering::Greater) {
        max
    } else {
        value
    }
}

/// Brings `value` into `[min, max]`: below `min` gives `min`, above `max`
/// gives `max`, anything else is returned as it is.
pub fn clamp<T: PartialOrd>(value: T, min: T, max: T) -> (r: T)
    ensures
        T::obeys_partial_cmp_spec() ==> r == clamp_by_order(value, min, max),
        r == value || r == min || r == max,
{
    if value < min {
        min
    } else if value > max {
        max
    } else {
        value
    }
}

/// The per-axis move that is actually made when `movement` is applied at
/// `coord` on a board of size `board`: the target is clamped into the board
/// and the distance travelled to it is returned.
pub open spec fn move_clamp_spec(movement: (i32, i32), coord: (i32, i32), board: (i32, i32)) -> (int, int) {
    (
        clamp_spec(coord.0 + movement.0, 0, board.0 - 1) - coord.0,
        clamp_spec(coord.1 + movement.1, 0, board.1 - 1) - coord.1,
    )
}

/// Clamps `coord + movement` into the board and returns the displacement
/// that takes `coord` there. It is zero on an axis where the move would
/// leave the board from its edge.
pub fn move_clamp(movement: (i32, i32), coord: (i32, i32), board: (i32, i32)) -> (r: (i32, i32))
    requires
        0 <= coord.0 < board.0,
        0 <= coord.1 < board.1,
        i32::MIN <= coord.0 + movement.0 <= i32::MAX,
        i32::MIN <= coord.1 + movement.1 <= i32::MAX,
    ensures
        (r.0 as int, r.1 as int) == move_clamp_spec(movement, coord, board),
{
    let (x, y) = coord;
    let (delta_x, delta_y) = movement;
    let (board_x, board_y) = board;
    (clamp(x + delta_x, 0, board_x - 1) - x, clamp(y + delta_y, 0, board_y - 1) - y)
}

} // verus!
