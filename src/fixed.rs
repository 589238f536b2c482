//! Fixed-point helpers shared by the controllers.
use vstd::prelude::*;

verus! {

/// Thousandths per unit: the scale of every fixed-point quantity.
pub const ONE: i64 = 1000;

/// The value that `approach` steps to: `value` moved toward `target` by at
/// most `amount`, never past it.
pub open spec fn approach_spec(value: int, target: int, amount: int) -> int {
    if value > target {
        if value - amount > target { value - amount } else { target }
    } else {
        if value + amount < target { value + amount } else { target }
    }
}

/// An approach never overshoots: its result lies between the value and the
/// target.
pub proof fn lemma_approach_between(v: int, t: int, amt: int)
    requires
        amt >= 0,
    ensures
        v <= t ==> v <= approach_spec(v, t, amt) <= t,
        t <= v ==> t <= approach_spec(v, t, amt) <= v,
{
}

/// Moves `value` toward `target` by at most `amount`, stopping at `target`.
pub fn approach(value: i64, target: i64, amount: i64) -> (r: i64)
    requires
        -0x1_0000_0000_0000 <= value <= 0x1_0000_0000_0000,
        -0x1_0000_0000_0000 <= target <= 0x1_0000_0000_0000,
        0 <= amount <= 0x1_0000_0000_0000,
    ensures
        r == approach_spec(value as int, target as int, amount as int),
        value <= target ==> value <= r <= target,
        target <= value ==> target <= r <= value,
{
    if value > target {
        let v = value - amount;
        if v > target { v } else { target }
    } else {
        let v = value + amount;
        if v < target { v } else { target }
    }
}

/// Rounds `a / b` toward negative infinity.
pub fn floor_div(a: i64, b: i64) -> (r: i64)
    requires
        b > 0,
        a > i64::MIN,
    ensures
        r == a as int / b as int,
{
    if a >= 0 {
        a / b
    } else {
        let q = (-a - 1) / b;
        proof {
            let na = -(a as int) - 1;
            let bi = b as int;
            let qi = na / bi;
            assert(na == qi * bi + na % bi) by (nonlinear_arith) requires bi > 0, qi == na / bi;
            assert(0 <= na % bi < bi) by (nonlinear_arith) requires bi > 0;
            assert(a as int == (-qi - 1) * bi + (bi - 1 - na % bi)) by (nonlinear_arith)
                requires na == qi * bi + na % bi, na == -(a as int) - 1;
            vstd::arithmetic::div_mod::lemma_fundamental_div_mod_converse(
                a as int, bi, -qi - 1, bi - 1 - na % bi);
        }
        -q - 1
    }
}

} // verus!
