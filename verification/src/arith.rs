//! Machine arithmetic shared by the evaluators: truncating division as the
//! target language defines it, and its executable form on `i128`.

use vstd::prelude::*;

verus! {

/// Absolute value.
pub open spec fn iabs(a: int) -> int {
    if a < 0 {
        -a
    } else {
        a
    }
}

/// Division that rounds toward zero, as C and the host integers do.
pub open spec fn trunc_div(a: int, b: int) -> int {
    if (a < 0) == (b < 0) {
        iabs(a) / iabs(b)
    } else {
        -(iabs(a) / iabs(b))
    }
}

/// Truncating division on `i128`.
pub fn trunc_div_i128(l: i128, r: i128) -> (q: i128)
    requires
        r != 0,
        i128::MIN <= trunc_div(l as int, r as int) <= i128::MAX,
    ensures
        q as int == trunc_div(l as int, r as int),
{
    let la: u128 = if l >= 0 {
        l as u128
    } else {
        ((-(l + 1)) as u128) + 1
    };
    let rb: u128 = if r >= 0 {
        r as u128
    } else {
        ((-(r + 1)) as u128) + 1
    };
    proof {
        assert(la as int == iabs(l as int));
        assert(rb as int == iabs(r as int));
    }
    let q = la / rb;
    if (l >= 0) == (r >= 0) {
        proof {
            assert(trunc_div(l as int, r as int) == q as int);
        }
        q as i128
    } else {
        if q > (i128::MAX as u128) {
            proof {
                assert(trunc_div(l as int, r as int) == -(q as int));
                assert(q as int == -(i128::MIN as int));
            }
            i128::MIN
        } else {
            -(q as i128)
        }
    }
}

} // verus!
