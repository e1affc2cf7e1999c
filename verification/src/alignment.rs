//! Rounding offsets up to power-of-two alignments, as the allocators and
//! pools do it: `(x + (align - 1)) & ((!align) + 1)`.

use vstd::prelude::*;
use vstd::arithmetic::power2::pow2;

verus! {

/// Whether `n` is a power of two that fits in 64 bits.
pub open spec fn is_pow2(n: nat) -> bool {
    exists|k: nat| k < 64 && #[trigger] pow2(k) == n
}

/// `x` rounded up to the next multiple of `align` (`align > 0`).
pub open spec fn round_up(x: nat, align: nat) -> nat {
    (((x + align - 1) as nat / align) * align) as nat
}

/// The offset at which an allocation aligned to `align` starts when the free
/// space starts at `x`; an alignment of zero asks for no alignment.
pub open spec fn align_up_spec(x: nat, align: nat) -> nat {
    if align == 0 { x } else { round_up(x, align) }
}

/// The mask `(!a) + 1` that the code ands with.
pub open spec fn align_mask(a: u64) -> u64 { ((!a) + 1) as u64 }

/// For a power of two `a`, masking `s` with `(!a) + 1` rounds it down to a multiple of `a`.
pub proof fn lemma_mask_rounds_down(s: u64, a: u64)
    requires is_pow2(a as nat),
    ensures
        s & align_mask(a) == (s as nat / a as nat) * a as nat,
        a >= 1,
{
    let k: nat = choose|k: nat| k < 64 && #[trigger] pow2(k) == a as nat;
    vstd::arithmetic::power2::lemma_pow2_pos(k);
    let m: u64 = align_mask(a);
    let lo: u64 = (a - 1) as u64;
    assert(s & m == s - (s & lo)) by (bit_vector)
        requires a >= 1, m == ((!a) + 1) as u64, lo == (a - 1) as u64;
    vstd::bits::lemma_u64_low_bits_mask_is_mod(s, k);
    assert(vstd::bits::low_bits_mask(k) == lo as nat);
    assert(s & lo == s % a);
    vstd::arithmetic::div_mod::lemma_fundamental_div_mod(s as int, a as int);
    let q: int = s as int / a as int;
    assert(a as int * q == q * a as int) by (nonlinear_arith);
}

/// `round_up(x, a)` is the least multiple of `a` that is at least `x`.
pub proof fn lemma_round_up_bounds(x: nat, a: nat)
    requires a > 0,
    ensures
        x <= round_up(x, a),
        round_up(x, a) < x + a,
        round_up(x, a) % a == 0,
{
    let s: int = x + a - 1;
    vstd::arithmetic::div_mod::lemma_fundamental_div_mod(s, a as int);
    let q: int = s / a as int;
    assert(a as int * q == q * a as int) by (nonlinear_arith);
    vstd::arithmetic::div_mod::lemma_mod_bound(s, a as int);
    vstd::arithmetic::div_mod::lemma_mod_multiples_basic(q, a as int);
}

/// Rounding up is rounding down, plus one step where `x` is not yet aligned.
pub proof fn lemma_round_up_from_down(x: nat, a: nat)
    requires a > 0,
    ensures
        x % a == 0 ==> round_up(x, a) == x,
        x % a != 0 ==> round_up(x, a) == (x / a) * a + a,
{
    let q: int = x as int / a as int;
    let r: int = x as int % a as int;
    vstd::arithmetic::div_mod::lemma_fundamental_div_mod(x as int, a as int);
    vstd::arithmetic::div_mod::lemma_mod_bound(x as int, a as int);
    assert(a as int * q == q * a as int) by (nonlinear_arith);
    let s: int = x + a - 1;
    if r == 0 {
        assert(s == q * a + (a - 1));
        vstd::arithmetic::div_mod::lemma_fundamental_div_mod_converse(s, a as int, q, a - 1);
    } else {
        assert(s == (q + 1) * a + (r - 1)) by (nonlinear_arith)
            requires s == x + a - 1, x == q * a + r;
        vstd::arithmetic::div_mod::lemma_fundamental_div_mod_converse(s, a as int, q + 1, r - 1);
        assert((q + 1) * a == q * a + a) by (nonlinear_arith);
    }
}

/// Offset zero is aligned to every alignment.
pub proof fn lemma_align_zero(align: nat)
    ensures align_up_spec(0, align) == 0,
{
    if align > 0 {
        lemma_round_up_bounds(0, align);
        vstd::arithmetic::div_mod::lemma_small_mod(round_up(0, align), align);
    }
}

/// Rounds `x` up to `align` (a power of two, or zero for no alignment), or
/// `None` where the result does not fit in a `usize`.
pub fn align_up(x: usize, align: usize) -> (r: Option<usize>)
    requires align == 0 || is_pow2(align as nat),
    ensures
        match r {
            Some(v) => v as nat == align_up_spec(x as nat, align as nat),
            None => align_up_spec(x as nat, align as nat) > usize::MAX,
        },
{
    if align == 0 {
        return Some(x);
    }
    let a: u64 = align as u64;
    let xx: u64 = x as u64;
    proof {
        lemma_mask_rounds_down(xx, a);
        lemma_round_up_from_down(x as nat, align as nat);
        vstd::arithmetic::div_mod::lemma_fundamental_div_mod(x as int, align as int);
        let q: int = x as int / align as int;
        assert(align as int * q == q * align as int) by (nonlinear_arith);
    }
    assert(!a < 0xFFFF_FFFF_FFFF_FFFFu64) by (bit_vector) requires a >= 1;
    let down: u64 = xx & ((!a) + 1);
    if down == xx {
        return Some(x);
    }
    if down > (usize::MAX as u64) - a {
        return None;
    }
    Some((down + a) as usize)
}

} // verus!
