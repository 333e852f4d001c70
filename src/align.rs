use vstd::prelude::*;
use vstd::arithmetic::div_mod::lemma_fundamental_div_mod_converse;
use vstd::arithmetic::div_mod::lemma_fundamental_div_mod;
use vstd::arithmetic::div_mod::lemma_div_pos_is_pos;

verus! {

/// The smallest multiple of `a` that is at least `v` (for `a > 0`, `v >= 0`).
pub open spec fn align_up(v: int, a: int) -> int {
    ((v + a - 1) / a) * a
}

/// `align_up` is a multiple of the alignment, not below the value, and less
/// than one alignment step above it; an aligned value is left as it is.
pub proof fn lemma_align_up(v: int, a: int)
    requires
        v >= 0,
        a > 0,
    ensures
        align_up(v, a) % a == 0,
        v <= align_up(v, a) < v + a,
        align_up(v, a) == (if v % a == 0 { v } else { v - v % a + a }),
        v % a == 0 ==> align_up(v, a) == v,
        0 <= v % a <= v,
{
    let q = v / a;
    let r = v % a;
    lemma_fundamental_div_mod(v, a);
    lemma_div_pos_is_pos(v, a);
    assert(v == q * a + r) by (nonlinear_arith)
        requires
            v == a * q + r,
    ;
    assert(0 <= r < a);
    assert(q * a >= 0) by (nonlinear_arith)
        requires
            q >= 0,
            a > 0,
    ;
    if r == 0 {
        lemma_fundamental_div_mod_converse(v + a - 1, a, q, a - 1);
    } else {
        assert(v + a - 1 == (q + 1) * a + (r - 1)) by (nonlinear_arith)
            requires
                v == q * a + r,
        ;
        lemma_fundamental_div_mod_converse(v + a - 1, a, q + 1, r - 1);
        assert((q + 1) * a == q * a + a) by (nonlinear_arith);
    }
    let m = (v + a - 1) / a;
    lemma_fundamental_div_mod_converse(m * a, a, m, 0);
}

/// Rounds `val` up to the next multiple of `align`.
pub fn align_u32(val: u32, align: u32) -> (r: u32)
    requires
        align > 0,
        align_up(val as int, align as int) <= u32::MAX,
    ensures
        r == align_up(val as int, align as int),
{
    proof {
        lemma_align_up(val as int, align as int);
    }
    let rem = val % align;
    if rem == 0 {
        val
    } else {
        val - rem + align
    }
}

/// Rounds `val` up to the next multiple of `align`, or `None` where that
/// multiple does not fit in 64 bits.
pub fn checked_align_u64(val: u64, align: u64) -> (r: Option<u64>)
    requires
        align > 0,
    ensures
        align_up(val as int, align as int) <= u64::MAX ==> r == Some(
            align_up(val as int, align as int) as u64,
        ),
        align_up(val as int, align as int) > u64::MAX ==> r is None,
{
    proof {
        lemma_align_up(val as int, align as int);
    }
    let rem = val % align;
    if rem == 0 {
        Some(val)
    } else {
        let base = val - rem;
        if base > u64::MAX - align {
            None
        } else {
            Some(base + align)
        }
    }
}

} // verus!
