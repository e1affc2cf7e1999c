//! The packed pointer type used by the memory pools.
//!
//! A `GpuPtr` is a 64-bit word split into a 5-bit memory type index (the top
//! bits), an 11-bit pool index and a 48-bit pointer (the low bits).

use vstd::prelude::*;
use vstd::string::StringExecFns;
use crate::text::{decimal, decimal_string, upper_hex, upper_hex_string};

verus! {

/// 2^59: the weight of the lowest type-index bit.
pub open spec fn type_unit() -> nat { 0x0800_0000_0000_0000 }

/// 2^48: the weight of the lowest pool-index bit.
pub open spec fn pool_unit() -> nat { 0x0001_0000_0000_0000 }

/// The type index stored in a raw word.
pub open spec fn raw_type_idx(raw: u64) -> nat { (raw as nat) / type_unit() }

/// The pool index stored in a raw word.
pub open spec fn raw_pool_idx(raw: u64) -> nat { ((raw as nat) / pool_unit()) % 2048 }

/// The pointer value stored in a raw word.
pub open spec fn raw_address(raw: u64) -> nat { (raw as nat) % pool_unit() }

/// The raw word with the given fields (each already in range).
pub open spec fn compose(type_idx: nat, pool_idx: nat, ptr: nat) -> nat {
    type_idx * type_unit() + pool_idx * pool_unit() + ptr
}

/// `x` rounded up to the next multiple of `align` (`align > 0`).
pub open spec fn round_up(x: nat, align: nat) -> nat {
    (((x + align - 1) as nat / align) * align) as nat
}

/// Whether `a` is a power of two.
pub open spec fn is_pow2_u8(a: u8) -> bool {
    a == 1 || a == 2 || a == 4 || a == 8 || a == 16 || a == 32 || a == 64 || a == 128
}

proof fn lemma_fields(raw: u64)
    ensures
        (raw >> 59u64) & 0x1Fu64 == raw / 0x0800_0000_0000_0000u64,
        (raw >> 48u64) & 0x7FFu64 == (raw / 0x0001_0000_0000_0000u64) % 2048,
        raw & 0xFFFF_FFFF_FFFFu64 == raw % 0x0001_0000_0000_0000u64,
{
    assert(((raw >> 59u64) & 0x1Fu64 == raw / 0x0800_0000_0000_0000u64)
        && ((raw >> 48u64) & 0x7FFu64 == (raw / 0x0001_0000_0000_0000u64) % 2048)
        && (raw & 0xFFFF_FFFF_FFFFu64 == raw % 0x0001_0000_0000_0000u64)) by (bit_vector);
}

proof fn lemma_compose(t: u64, p: u64, x: u64)
    requires
        t < 32,
        p < 2048,
        x < 0x0001_0000_0000_0000u64,
    ensures
        (t << 59u64) | (p << 48u64) | x == t * 0x0800_0000_0000_0000 + p * 0x0001_0000_0000_0000 + x,
        (t * 0x0800_0000_0000_0000 + p * 0x0001_0000_0000_0000 + x) / 0x0800_0000_0000_0000 == t,
        ((t * 0x0800_0000_0000_0000 + p * 0x0001_0000_0000_0000 + x) / 0x0001_0000_0000_0000) % 2048 == p,
        (t * 0x0800_0000_0000_0000 + p * 0x0001_0000_0000_0000 + x) % 0x0001_0000_0000_0000 == x,
{
    assert(((t << 59u64) | (p << 48u64) | x == t * 0x0800_0000_0000_0000 + p * 0x0001_0000_0000_0000 + x)
        && ((t * 0x0800_0000_0000_0000 + p * 0x0001_0000_0000_0000 + x) / 0x0800_0000_0000_0000 == t)
        && (((t * 0x0800_0000_0000_0000 + p * 0x0001_0000_0000_0000 + x) / 0x0001_0000_0000_0000) % 2048 == p)
        && ((t * 0x0800_0000_0000_0000 + p * 0x0001_0000_0000_0000 + x) % 0x0001_0000_0000_0000 == x))
        by (bit_vector)
        requires t < 32, p < 2048, x < 0x0001_0000_0000_0000u64;
}

/// A pointer into a memory pool: a type index, a pool index and a 48-bit pointer.
#[derive(Clone, Copy, Debug, PartialEq, Eq, PartialOrd, Ord, Structural)]
pub struct GpuPtr(u64);

impl GpuPtr {
    /// The raw word of this pointer.
    pub closed spec fn bits(self) -> u64 { self.0 }

    /// The type index (5 bits).
    pub open spec fn spec_type_idx(self) -> nat { raw_type_idx(self.bits()) }

    /// The pool index (11 bits).
    pub open spec fn spec_pool_idx(self) -> nat { raw_pool_idx(self.bits()) }

    /// The pointer value (48 bits).
    pub open spec fn spec_ptr(self) -> nat { raw_address(self.bits()) }

    /// Builds a pointer from its three fields; only the low 5, 11 and 48 bits of
    /// them are used.
    pub fn new(type_idx: u8, pool_idx: u16, ptr: u64) -> (r: Self)
        ensures
            r.bits() == compose(type_idx as nat % 32, pool_idx as nat % 2048, ptr as nat % pool_unit()),
            r.spec_type_idx() == type_idx as nat % 32,
            r.spec_pool_idx() == pool_idx as nat % 2048,
            r.spec_ptr() == ptr as nat % pool_unit(),
    {
        let t: u64 = (type_idx as u64) & 0x1F;
        let p: u64 = (pool_idx as u64) & 0x7FF;
        let x: u64 = ptr & 0xFFFF_FFFF_FFFF;
        proof {
            let tt = type_idx as u64;
            let pp = pool_idx as u64;
            assert((tt & 0x1Fu64 == tt % 32) && (pp & 0x7FFu64 == pp % 2048)
                && (ptr & 0xFFFF_FFFF_FFFFu64 == ptr % 0x0001_0000_0000_0000u64)) by (bit_vector);
            lemma_compose(t, p, x);
        }
        GpuPtr((t << 59u64) | (p << 48u64) | x)
    }

    /// The null pointer: all 48 pointer bits set, type and pool index zero.
    pub fn null() -> (r: Self)
        ensures
            r.spec_type_idx() == 0,
            r.spec_pool_idx() == 0,
            r.spec_ptr() == pool_unit() - 1,
            r.is_null_spec(),
    {
        Self::new(0, 0, 0xFFFF_FFFF_FFFF)
    }

    /// Whether the pointer part is all ones (null pointers keep their indices).
    pub open spec fn is_null_spec(self) -> bool { self.spec_ptr() == pool_unit() - 1 }

    /// Builds a pointer from its fields and rounds it up to `align`, which
    /// must be a power of two.
    pub fn aligned(type_idx: u8, pool_idx: u16, ptr: u64, align: u8) -> (r: Self)
        requires
            is_pow2_u8(align),
            compose(type_idx as nat % 32, pool_idx as nat % 2048, ptr as nat % pool_unit()) + align - 1 <= u64::MAX,
        ensures
            r.bits() == round_up(
                compose(type_idx as nat % 32, pool_idx as nat % 2048, ptr as nat % pool_unit()),
                align as nat,
            ),
            ptr as nat % pool_unit() + align - 1 < pool_unit() ==> {
                &&& r.spec_type_idx() == type_idx as nat % 32
                &&& r.spec_pool_idx() == pool_idx as nat % 2048
                &&& r.spec_ptr() == round_up(ptr as nat % pool_unit(), align as nat)
            },
    {
        let p = Self::new(type_idx, pool_idx, ptr);
        p.align(align)
    }

    /// The pointer that `new` builds from these fields.
    pub closed spec fn new_spec(type_idx: u8, pool_idx: u16, ptr: u64) -> Self {
        GpuPtr(compose(type_idx as nat % 32, pool_idx as nat % 2048, ptr as nat % pool_unit()) as u64)
    }

    /// The raw word rounded up to a multiple of `align`, which must be a
    /// power of two.
    pub fn align(&self, align: u8) -> (r: Self)
        requires
            is_pow2_u8(align),
            self.bits() + align - 1 <= u64::MAX,
        ensures
            r.bits() == round_up(self.bits() as nat, align as nat),
            self.spec_ptr() + align - 1 < pool_unit() ==> {
                &&& r.spec_type_idx() == self.spec_type_idx()
                &&& r.spec_pool_idx() == self.spec_pool_idx()
                &&& r.spec_ptr() == round_up(self.spec_ptr(), align as nat)
            },
    {
        let a: u64 = align as u64;
        assert(!a < 0xFFFF_FFFF_FFFF_FFFFu64) by (bit_vector) requires a >= 1;
        let r: u64 = (self.0 + (a - 1)) & ((!a) + 1);
        proof {
            lemma_align(self.0, a);
            let old_t = raw_type_idx(self.0);
            let old_p = raw_pool_idx(self.0);
            if self.spec_ptr() + align - 1 < pool_unit() {
                assert(r as nat / pool_unit() == self.0 as nat / pool_unit());
                assert(raw_pool_idx(r) == old_p);
                let q: int = r as int / pool_unit() as int;
                assert(raw_type_idx(r) == old_t) by {
                    vstd::arithmetic::div_mod::lemma_div_denominator(r as int, pool_unit() as int, 2048);
                    vstd::arithmetic::div_mod::lemma_div_denominator(self.0 as int, pool_unit() as int, 2048);
                }
            }
        }
        GpuPtr(r)
    }

    /// The same pointer with the type and pool index cleared.
    pub fn agnostic(&self) -> (r: Self)
        ensures
            r.spec_type_idx() == 0,
            r.spec_pool_idx() == 0,
            r.spec_ptr() == self.spec_ptr(),
            r.bits() == self.spec_ptr(),
    {
        let x = self.0;
        proof {
            assert(x & 0xFFFF_FFFF_FFFFu64 == x % 0x0001_0000_0000_0000u64) by (bit_vector);
        }
        GpuPtr(self.0 & 0xFFFF_FFFF_FFFF)
    }

    /// Replaces the type index by the low 5 bits of `type_idx`.
    pub fn set_type_idx(&mut self, type_idx: u8)
        ensures
            final(self).spec_type_idx() == type_idx as nat % 32,
            final(self).spec_pool_idx() == old(self).spec_pool_idx(),
            final(self).spec_ptr() == old(self).spec_ptr(),
    {
        let x = self.0;
        let t: u64 = (type_idx as u64) & 0x1F;
        let r: u64 = (x & !(0x1Fu64 << 59u64)) | (t << 59u64);
        proof {
            let tt = type_idx as u64;
            assert(tt & 0x1Fu64 == tt % 32) by (bit_vector);
            assert(r / 0x0800_0000_0000_0000u64 == t
                && (r / 0x0001_0000_0000_0000u64) % 2048 == (x / 0x0001_0000_0000_0000u64) % 2048
                && r % 0x0001_0000_0000_0000u64 == x % 0x0001_0000_0000_0000u64) by (bit_vector)
                requires t < 32, r == (x & !(0x1Fu64 << 59u64)) | (t << 59u64);
        }
        self.0 = r;
    }

    /// Replaces the pool index by the low 11 bits of `pool_idx`.
    pub fn set_pool_idx(&mut self, pool_idx: u16)
        ensures
            final(self).spec_type_idx() == old(self).spec_type_idx(),
            final(self).spec_pool_idx() == pool_idx as nat % 2048,
            final(self).spec_ptr() == old(self).spec_ptr(),
    {
        let x = self.0;
        let p: u64 = (pool_idx as u64) & 0x7FF;
        let r: u64 = (x & !(0x7FFu64 << 48u64)) | (p << 48u64);
        proof {
            let pp = pool_idx as u64;
            assert(pp & 0x7FFu64 == pp % 2048) by (bit_vector);
            assert(r / 0x0800_0000_0000_0000u64 == x / 0x0800_0000_0000_0000u64
                && (r / 0x0001_0000_0000_0000u64) % 2048 == p
                && r % 0x0001_0000_0000_0000u64 == x % 0x0001_0000_0000_0000u64) by (bit_vector)
                requires p < 2048, r == (x & !(0x7FFu64 << 48u64)) | (p << 48u64);
        }
        self.0 = r;
    }

    /// Replaces the pointer part by the low 48 bits of `ptr`.
    pub fn set_ptr(&mut self, ptr: u64)
        ensures
            final(self).spec_type_idx() == old(self).spec_type_idx(),
            final(self).spec_pool_idx() == old(self).spec_pool_idx(),
            final(self).spec_ptr() == ptr as nat % pool_unit(),
    {
        let x = self.0;
        let r: u64 = (x & !0xFFFF_FFFF_FFFFu64) | (ptr & 0xFFFF_FFFF_FFFF);
        proof {
            assert(r / 0x0800_0000_0000_0000u64 == x / 0x0800_0000_0000_0000u64
                && (r / 0x0001_0000_0000_0000u64) % 2048 == (x / 0x0001_0000_0000_0000u64) % 2048
                && r % 0x0001_0000_0000_0000u64 == ptr % 0x0001_0000_0000_0000u64) by (bit_vector)
                requires r == (x & !0xFFFF_FFFF_FFFFu64) | (ptr & 0xFFFF_FFFF_FFFFu64);
        }
        self.0 = r;
    }

    /// The text shown in debug output: `T<type index>` where the type index is
    /// not zero, `P<pool index>` where the pool index is not zero, then the
    /// pointer in upper-case hexadecimal with a `0x` prefix.
    pub fn describe(&self) -> (r: String)
        ensures
            r@ == (if self.spec_type_idx() > 0 { "T"@ + decimal(self.spec_type_idx() as u64) } else { Seq::empty() })
                + (if self.spec_pool_idx() > 0 { "P"@ + decimal(self.spec_pool_idx() as u64) } else { Seq::empty() })
                + upper_hex(self.spec_ptr() as u64),
    {
        let type_idx = self.type_idx();
        let pool_idx = self.pool_idx();
        let ptr = self.ptr();
        let mut s = String::new();
        if type_idx > 0 {
            s.append("T");
            let digits = decimal_string(type_idx as u64);
            s.append(digits.as_str());
        }
        if pool_idx > 0 {
            s.append("P");
            let digits = decimal_string(pool_idx as u64);
            s.append(digits.as_str());
        }
        let hex = upper_hex_string(ptr);
        s.append(hex.as_str());
        s
    }

    /// The type index.
    pub fn type_idx(&self) -> (r: u8)
        ensures r as nat == self.spec_type_idx(), r < 32,
    {
        proof { lemma_fields(self.0); }
        ((self.0 >> 59u64) & 0x1F) as u8
    }

    /// The pool index.
    pub fn pool_idx(&self) -> (r: u16)
        ensures r as nat == self.spec_pool_idx(), r < 2048,
    {
        proof { lemma_fields(self.0); }
        ((self.0 >> 48u64) & 0x7FF) as u16
    }

    /// The pointer value.
    pub fn ptr(&self) -> (r: u64)
        ensures r as nat == self.spec_ptr(), r < 0x0001_0000_0000_0000u64,
    {
        proof { lemma_fields(self.0); }
        self.0 & 0xFFFF_FFFF_FFFF
    }

    /// Whether this is a null pointer: its 48 pointer bits are all set.
    pub fn is_null(&self) -> (r: bool)
        ensures r == self.is_null_spec(),
    {
        proof { lemma_fields(self.0); }
        self.0 & 0xFFFF_FFFF_FFFF == 0xFFFF_FFFF_FFFF
    }

    /// The raw word.
    pub fn as_raw(&self) -> (r: u64)
        ensures r == self.bits(),
    {
        self.0
    }
}


/// The pointer with the type and pool index of `base` and the pointer part `ptr`.
pub closed spec fn with_ptr(base: GpuPtr, ptr: nat) -> GpuPtr {
    GpuPtr(compose(base.spec_type_idx(), base.spec_pool_idx(), ptr) as u64)
}

proof fn lemma_keep_indices(x: u64, sum: u64)
    requires sum < 0x0001_0000_0000_0000u64,
    ensures
        (x & (0xFFFFu64 << 48u64)) | sum == compose(raw_type_idx(x), raw_pool_idx(x), sum as nat),
        raw_type_idx(((x & (0xFFFFu64 << 48u64)) | sum)) == raw_type_idx(x),
        raw_pool_idx(((x & (0xFFFFu64 << 48u64)) | sum)) == raw_pool_idx(x),
        raw_address(((x & (0xFFFFu64 << 48u64)) | sum)) == sum,
{
    let r: u64 = (x & (0xFFFFu64 << 48u64)) | sum;
    assert((r == (x / 0x0800_0000_0000_0000u64) * 0x0800_0000_0000_0000
            + ((x / 0x0001_0000_0000_0000u64) % 2048) * 0x0001_0000_0000_0000 + sum)
        && (r / 0x0800_0000_0000_0000u64 == x / 0x0800_0000_0000_0000u64)
        && ((r / 0x0001_0000_0000_0000u64) % 2048 == (x / 0x0001_0000_0000_0000u64) % 2048)
        && (r % 0x0001_0000_0000_0000u64 == sum)) by (bit_vector)
        requires sum < 0x0001_0000_0000_0000u64, r == (x & (0xFFFFu64 << 48u64)) | sum;
}

impl GpuPtr {
    /// The offset addition shared by both `+` operators: keeps the indices of
    /// `self` and adds `rhs` to its pointer part.
    fn offset_by(self, rhs: u64) -> (r: GpuPtr)
        requires self.spec_ptr() + rhs < pool_unit(),
        ensures
            r == with_ptr(self, self.spec_ptr() + rhs as nat),
            r.spec_type_idx() == self.spec_type_idx(),
            r.spec_pool_idx() == self.spec_pool_idx(),
            r.spec_ptr() == self.spec_ptr() + rhs,
    {
        let lhs_ptr: u64 = self.ptr();
        let res_ptr: u64 = lhs_ptr + rhs;
        proof { lemma_keep_indices(self.0, res_ptr); }
        GpuPtr((self.0 & (0xFFFFu64 << 48u64)) | res_ptr)
    }
}

impl Default for GpuPtr {
    /// The all-zero pointer.
    fn default() -> (r: Self)
        ensures r.bits() == 0,
    {
        GpuPtr(0)
    }
}

impl core::ops::Add for GpuPtr {
    type Output = GpuPtr;

    /// Adds the pointer part of `rhs` to that of `self`, keeping the indices of `self`.
    fn add(self, rhs: GpuPtr) -> (r: GpuPtr)
        ensures
            r.spec_type_idx() == self.spec_type_idx(),
            r.spec_pool_idx() == self.spec_pool_idx(),
            r.spec_ptr() == self.spec_ptr() + rhs.spec_ptr(),
    {
        let p = rhs.ptr();
        self.offset_by(p)
    }
}

impl vstd::std_specs::ops::AddSpecImpl for GpuPtr {
    open spec fn obeys_add_spec() -> bool { true }

    open spec fn add_req(self, rhs: GpuPtr) -> bool { self.spec_ptr() + rhs.spec_ptr() < pool_unit() }

    open spec fn add_spec(self, rhs: GpuPtr) -> GpuPtr { with_ptr(self, self.spec_ptr() + rhs.spec_ptr()) }
}

impl core::ops::Add<usize> for GpuPtr {
    type Output = GpuPtr;

    /// Adds `rhs` to the pointer part of `self`, keeping its indices.
    fn add(self, rhs: usize) -> (r: GpuPtr)
        ensures
            r.spec_type_idx() == self.spec_type_idx(),
            r.spec_pool_idx() == self.spec_pool_idx(),
            r.spec_ptr() == self.spec_ptr() + rhs,
    {
        self.offset_by(rhs as u64)
    }
}

impl vstd::std_specs::ops::AddSpecImpl<usize> for GpuPtr {
    open spec fn obeys_add_spec() -> bool { true }

    open spec fn add_req(self, rhs: usize) -> bool { self.spec_ptr() + rhs < pool_unit() }

    open spec fn add_spec(self, rhs: usize) -> GpuPtr { with_ptr(self, self.spec_ptr() + rhs as nat) }
}

impl core::ops::AddAssign for GpuPtr {
    /// `*self = *self + rhs`.
    fn add_assign(&mut self, rhs: GpuPtr)
        requires old(self).spec_ptr() + rhs.spec_ptr() < pool_unit(),
        ensures
            final(self).spec_type_idx() == old(self).spec_type_idx(),
            final(self).spec_pool_idx() == old(self).spec_pool_idx(),
            final(self).spec_ptr() == old(self).spec_ptr() + rhs.spec_ptr(),
    {
        *self = *self + rhs;
    }
}

impl core::ops::AddAssign<usize> for GpuPtr {
    /// `*self = *self + rhs`.
    fn add_assign(&mut self, rhs: usize)
        requires old(self).spec_ptr() + rhs < pool_unit(),
        ensures
            final(self).spec_type_idx() == old(self).spec_type_idx(),
            final(self).spec_pool_idx() == old(self).spec_pool_idx(),
            final(self).spec_ptr() == old(self).spec_ptr() + rhs,
    {
        *self = *self + rhs;
    }
}

impl From<usize> for GpuPtr {
    /// A pointer with zero indices and the low 48 bits of `value`.
    fn from(value: usize) -> (r: GpuPtr) {
        GpuPtr::new(0, 0, value as u64)
    }
}

impl vstd::std_specs::convert::FromSpecImpl<usize> for GpuPtr {
    open spec fn obeys_from_spec() -> bool { true }

    open spec fn from_spec(v: usize) -> GpuPtr { GpuPtr::new_spec(0, 0, v as u64) }
}

impl From<u64> for GpuPtr {
    /// A pointer with zero indices and the low 48 bits of `value`.
    fn from(value: u64) -> (r: GpuPtr) {
        GpuPtr::new(0, 0, value)
    }
}

impl vstd::std_specs::convert::FromSpecImpl<u64> for GpuPtr {
    open spec fn obeys_from_spec() -> bool { true }

    open spec fn from_spec(v: u64) -> GpuPtr { GpuPtr::new_spec(0, 0, v) }
}

impl From<GpuPtr> for usize {
    /// The pointer part.
    fn from(value: GpuPtr) -> (r: usize) {
        value.ptr() as usize
    }
}

impl vstd::std_specs::convert::FromSpecImpl<GpuPtr> for usize {
    open spec fn obeys_from_spec() -> bool { true }

    open spec fn from_spec(v: GpuPtr) -> usize { v.spec_ptr() as usize }
}

impl From<GpuPtr> for u64 {
    /// The pointer part.
    fn from(value: GpuPtr) -> (r: u64) {
        value.ptr()
    }
}

impl vstd::std_specs::convert::FromSpecImpl<GpuPtr> for u64 {
    open spec fn obeys_from_spec() -> bool { true }

    open spec fn from_spec(v: GpuPtr) -> u64 { v.spec_ptr() as u64 }
}

/// The aligning mask of a power of two `a`, as the code computes it.
pub open spec fn align_mask(a: u64) -> u64 { ((!a) + 1) as u64 }

/// The exponent of a power of two no larger than 128.
spec fn log2_small(a: u64) -> nat {
    if a == 1 { 0 } else if a == 2 { 1 } else if a == 4 { 2 } else if a == 8 { 3 }
    else if a == 16 { 4 } else if a == 32 { 5 } else if a == 64 { 6 } else { 7 }
}

proof fn lemma_align(x: u64, a: u64)
    requires
        a == 1 || a == 2 || a == 4 || a == 8 || a == 16 || a == 32 || a == 64 || a == 128,
        x + a - 1 <= 0xFFFF_FFFF_FFFF_FFFF,
    ensures
        ((x + (a - 1)) as u64) & align_mask(a) == round_up(x as nat, a as nat),
        (x as nat % pool_unit()) + a - 1 < pool_unit() ==> {
            &&& (((x + (a - 1)) as u64) & align_mask(a)) as nat / pool_unit() == x as nat / pool_unit()
            &&& (((x + (a - 1)) as u64) & align_mask(a)) as nat % pool_unit()
                == round_up(x as nat % pool_unit(), a as nat)
        },
{
    let s: u64 = (x + (a - 1)) as u64;
    let m: u64 = align_mask(a);
    let lo: u64 = (a - 1) as u64;
    assert(s & m == s - (s & lo)) by (bit_vector)
        requires a >= 1, m == ((!a) + 1) as u64, lo == (a - 1) as u64;
    let k = log2_small(a);
    vstd::arithmetic::power2::lemma2_to64();
    vstd::bits::lemma_low_bits_mask_values();
    assert(vstd::arithmetic::power2::pow2(k) == a as nat);
    assert(vstd::bits::low_bits_mask(k) == lo as nat);
    vstd::bits::lemma_u64_low_bits_mask_is_mod(s, k);
    assert(s & lo == s % a);
    let r: u64 = s & m;
    assert(r == s - s % a);
    vstd::arithmetic::div_mod::lemma_fundamental_div_mod(s as int, a as int);
    let q: int = s as int / a as int;
    assert(a as int * q == q * a as int) by (nonlinear_arith);
    assert(s as nat == (x as nat + a as nat - 1) as nat);
    assert(r as int == q * a as int);
    assert(r as nat == round_up(x as nat, a as nat));
    if (x as nat % pool_unit()) + a - 1 < pool_unit() {
        let p: int = pool_unit() as int;
        let hi: int = x as int / p;
        let t: int = (x as int % p) + a - 1;
        vstd::arithmetic::div_mod::lemma_fundamental_div_mod(x as int, p);
        assert(s as int == hi * p + t);
        let c: int = if a == 1 { p } else if a == 2 { p / 2 } else if a == 4 { p / 4 }
            else if a == 8 { p / 8 } else if a == 16 { p / 16 } else if a == 32 { p / 32 }
            else if a == 64 { p / 64 } else { p / 128 };
        assert(p == c * a);
        assert(hi * p == (hi * c) * a) by (nonlinear_arith) requires p == c * a;
        vstd::arithmetic::div_mod::lemma_mod_multiples_vanish(hi * c, t, a as int);
        assert(s as int % a as int == t % a as int);
        let u: int = t - t % a as int;
        assert(0 <= u < p) by {
            vstd::arithmetic::div_mod::lemma_mod_bound(t, a as int);
        }
        assert(r as int == hi * p + u);
        vstd::arithmetic::div_mod::lemma_fundamental_div_mod_converse(r as int, p, hi, u);
        vstd::arithmetic::div_mod::lemma_fundamental_div_mod(t, a as int);
        assert(u == round_up(x as nat % pool_unit(), a as nat));
    }
}

} // verus!
