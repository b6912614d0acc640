//! Range facts for the machine integers that hold coordinates.
use vstd::prelude::*;

verus! {

/// Whether an exact value can be held in an `i64`.
pub open spec fn fits(v: int) -> bool {
    i64::MIN <= v <= i64::MAX
}

/// The product of two `i64` values lies within `[-2^126, 2^126]`, so it can be
/// formed in an `i128`.
pub proof fn lemma_product_range(a: i64, b: i64)
    ensures
        -0x4000_0000_0000_0000_0000_0000_0000_0000 <= a as int * b as int
            <= 0x4000_0000_0000_0000_0000_0000_0000_0000,
{
    let m: int = 0x8000_0000_0000_0000;
    assert(-(m * m) <= a as int * b as int <= m * m) by (nonlinear_arith)
        requires
            -m <= a <= m - 1,
            -m <= b <= m - 1,
    ;
    assert(m * m == 0x4000_0000_0000_0000_0000_0000_0000_0000);
}

} // verus!
