//! Integer division with an explicit guard against a zero divisor.
//!
//! `safe_divide` is a pipeline independent of the calculation taxonomy: it
//! reports its one failure as a [`SimpleError`], showing that the minimal
//! message-only error type is usable on its own.

use crate::simple_error::SimpleError;
use vstd::math::abs;
use vstd::prelude::*;

verus! {

/// Truncating (round towards zero) integer division, the semantics of the
/// division operator on machine integers.
pub open spec fn div_trunc(a: int, b: int) -> int
    recommends
        b != 0,
{
    if (a < 0) == (b < 0) {
        abs(a) as int / abs(b) as int
    } else {
        -(abs(a) as int / abs(b) as int)
    }
}

/// Divides `a` by `b`.  The divisor must not be zero, and the one quotient
/// that does not fit in `i32` is ruled out as well.
pub fn divide(a: i32, b: i32) -> (r: i32)
    requires
        b != 0,
        !(a == i32::MIN && b == -1),
    ensures
        r == div_trunc(a as int, b as int),
{
    let ua: u32 = if a < 0 {
        (-(a as i64)) as u32
    } else {
        a as u32
    };
    let ub: u32 = if b < 0 {
        (-(b as i64)) as u32
    } else {
        b as u32
    };
    assert(ua == abs(a as int) && ub == abs(b as int));
    let q: u32 = ua / ub;
    if (a < 0) != (b < 0) {
        assert(q <= 0x8000_0000) by {
            assert(ua as int / ub as int <= ua as int / 1) by (nonlinear_arith)
                requires
                    ub >= 1,
            ;
        }
        (-(q as i64)) as i32
    } else {
        assert(q < 0x8000_0000) by {
            if ub == 1 {
                assert(ua as int / 1 == ua as int);
            } else {
                assert(ua as int / ub as int <= ua as int / 2) by (nonlinear_arith)
                    requires
                        ub >= 2,
                ;
            }
        }
        q as i32
    }
}

/// Divides `a` by `b`, reporting a zero divisor as an error value instead
/// of refusing the call.
pub fn safe_divide(a: i32, b: i32) -> (r: Result<i32, SimpleError>)
    requires
        !(a == i32::MIN && b == -1),
    ensures
        b == 0 ==> (r matches Err(m) && m@ == "Cannot divide by zero"@),
        b != 0 ==> (r matches Ok(v) && v == div_trunc(a as int, b as int)),
{
    if b == 0 {
        Err(SimpleError::new("Cannot divide by zero"))
    } else {
        Ok(divide(a, b))
    }
}

} // verus!
