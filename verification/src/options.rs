//! Compilation options: the hardware-accelerator bitset and the decisions
//! taken around the C calls that create and configure an options object.

use vstd::prelude::*;
use crate::error::{check, checked_handle, is_status_error, Error, Result};
use crate::raw;
use crate::raw::{LiteRtHwAcceleratorSet, LiteRtStatus};
use vstd::std_specs::ops::BitOrSpec;

verus! {

/// Hardware accelerator selection, represented as a bitset so a model can be
/// compiled to target multiple backends simultaneously.
#[derive(Debug, Clone, Copy, PartialEq, Eq, Structural)]
pub struct Accelerators(LiteRtHwAcceleratorSet);

impl Accelerators {
    /// No accelerator. The compiled model will fail to run.
    pub fn none() -> (a: Self)
        ensures
            a.spec_bits() == raw::K_LITERT_HW_ACCELERATOR_NONE as i32,
    {
        Accelerators(raw::K_LITERT_HW_ACCELERATOR_NONE as i32)
    }

    /// CPU reference backend. Always available.
    pub fn cpu() -> (a: Self)
        ensures
            a.spec_bits() == raw::K_LITERT_HW_ACCELERATOR_CPU as i32,
    {
        Accelerators(raw::K_LITERT_HW_ACCELERATOR_CPU as i32)
    }

    /// GPU backend (Metal on Apple, WebGPU / OpenCL elsewhere).
    pub fn gpu() -> (a: Self)
        ensures
            a.spec_bits() == raw::K_LITERT_HW_ACCELERATOR_GPU as i32,
    {
        Accelerators(raw::K_LITERT_HW_ACCELERATOR_GPU as i32)
    }

    /// NPU backend. Available on a narrower set of platforms.
    pub fn npu() -> (a: Self)
        ensures
            a.spec_bits() == raw::K_LITERT_HW_ACCELERATOR_NPU as i32,
    {
        Accelerators(raw::K_LITERT_HW_ACCELERATOR_NPU as i32)
    }

    /// The raw bitset.
    pub closed spec fn spec_bits(self) -> LiteRtHwAcceleratorSet {
        self.0
    }

    /// Whether any bit of `other` is set in `self`.
    pub open spec fn spec_contains(self, other: Self) -> bool {
        self.spec_bits() & other.spec_bits() != 0
    }

    /// Combine with another accelerator bit.
    pub fn union(self, other: Self) -> (r: Self)
        ensures
            r.spec_bits() == self.spec_bits() | other.spec_bits(),
    {
        Accelerators(self.0 | other.0)
    }

    /// Raw bitset value, for passing to the C API.
    pub fn bits(self) -> (b: LiteRtHwAcceleratorSet)
        ensures
            b == self.spec_bits(),
    {
        self.0
    }

    /// `true` if any of `other`'s bits are set in `self`.
    pub fn contains(self, other: Self) -> (r: bool)
        ensures
            r == self.spec_contains(other),
    {
        (self.0 & other.0) != 0
    }
}

impl core::ops::BitOr for Accelerators {
    type Output = Self;

    fn bitor(self, rhs: Self) -> (r: Self)
        ensures
            r.spec_bits() == self.spec_bits() | rhs.spec_bits(),
    {
        self.union(rhs)
    }
}

impl vstd::std_specs::ops::BitOrSpecImpl for Accelerators {
    open spec fn obeys_bitor_spec() -> bool {
        true
    }

    open spec fn bitor_req(self, rhs: Self) -> bool {
        true
    }

    open spec fn bitor_spec(self, rhs: Self) -> Self {
        Accelerators::from_bits_spec(self.spec_bits() | rhs.spec_bits())
    }
}

impl Accelerators {
    /// The accelerator set with the given raw bits.
    pub closed spec fn from_bits_spec(bits: LiteRtHwAcceleratorSet) -> Self {
        Accelerators(bits)
    }
}

impl Default for Accelerators {
    /// The CPU backend.
    fn default() -> (a: Self)
        ensures
            a.spec_bits() == raw::K_LITERT_HW_ACCELERATOR_CPU as i32,
    {
        Self::cpu()
    }
}

/// An accelerator set is its bits: sets with equal bits are equal, and
/// every bit pattern is the bits of the set built from it.
pub proof fn lemma_accelerators_bits_ext(a: Accelerators, b: Accelerators, bits: LiteRtHwAcceleratorSet)
    ensures
        (a.spec_bits() == b.spec_bits()) == (a == b),
        Accelerators::from_bits_spec(a.spec_bits()) == a,
        Accelerators::from_bits_spec(bits).spec_bits() == bits,
{
}

/// Union is commutative: `a | b == b | a`.
pub proof fn lemma_union_commutative(a: Accelerators, b: Accelerators)
    ensures
        a.spec_bits() | b.spec_bits() == b.spec_bits() | a.spec_bits(),
{
    let (x, y) = (a.spec_bits(), b.spec_bits());
    assert(x | y == y | x) by (bit_vector);
}

/// Union is associative: `(a | b) | c == a | (b | c)`.
pub proof fn lemma_union_associative(a: Accelerators, b: Accelerators, c: Accelerators)
    ensures
        (a.spec_bits() | b.spec_bits()) | c.spec_bits() == a.spec_bits() | (b.spec_bits()
            | c.spec_bits()),
{
    let (x, y, z) = (a.spec_bits(), b.spec_bits(), c.spec_bits());
    assert((x | y) | z == x | (y | z)) by (bit_vector);
}

/// Union is idempotent and has `NONE` as its identity.
pub proof fn lemma_union_idempotent_identity(a: Accelerators)
    ensures
        a.spec_bits() | a.spec_bits() == a.spec_bits(),
        a.spec_bits() | (raw::K_LITERT_HW_ACCELERATOR_NONE as i32) == a.spec_bits(),
{
    let x = a.spec_bits();
    assert(x | x == x) by (bit_vector);
    assert(x | 0i32 == x) by (bit_vector);
}

/// A union holds a bit of `c` exactly when one of its parts does; in
/// particular a union contains every non-empty part.
pub proof fn lemma_union_contains(a: Accelerators, b: Accelerators, c: Accelerators)
    ensures
        Accelerators::from_bits_spec(a.spec_bits() | b.spec_bits()).spec_contains(c) == (
        a.spec_contains(c) || b.spec_contains(c)),
        b.spec_bits() != 0 ==> Accelerators::from_bits_spec(
            a.spec_bits() | b.spec_bits(),
        ).spec_contains(b),
{
    let (x, y, z) = (a.spec_bits(), b.spec_bits(), c.spec_bits());
    assert(((x | y) & z != 0) == (x & z != 0 || y & z != 0)) by (bit_vector);
    assert(y != 0 ==> (x | y) & y != 0) by (bit_vector);
}

/// No set contains `NONE`, and a set contains itself exactly when it is
/// non-empty.
pub proof fn lemma_contains_none_and_self(a: Accelerators)
    ensures
        !a.spec_contains(Accelerators::from_bits_spec(raw::K_LITERT_HW_ACCELERATOR_NONE as i32)),
        a.spec_contains(a) == (a.spec_bits() != 0),
{
    let x = a.spec_bits();
    assert(x & 0i32 == 0) by (bit_vector);
    assert((x & x != 0) == (x != 0)) by (bit_vector);
}

/// The CPU, GPU and NPU backends are distinct single bits: each contains
/// itself and none of the others.
pub proof fn lemma_backends_disjoint()
    ensures
        (raw::K_LITERT_HW_ACCELERATOR_CPU as i32) & (raw::K_LITERT_HW_ACCELERATOR_GPU as i32) == 0,
        (raw::K_LITERT_HW_ACCELERATOR_CPU as i32) & (raw::K_LITERT_HW_ACCELERATOR_NPU as i32) == 0,
        (raw::K_LITERT_HW_ACCELERATOR_GPU as i32) & (raw::K_LITERT_HW_ACCELERATOR_NPU as i32) == 0,
{
    assert(1i32 & 2i32 == 0) by (bit_vector);
    assert(1i32 & 4i32 == 0) by (bit_vector);
    assert(2i32 & 4i32 == 0) by (bit_vector);
}

/// Options passed to the model compiler: a live handle to the C options
/// object, which is never null. (The object that owns the handle, with its
/// `Debug` output, stands where the C calls are made.)
pub struct CompilationOptions {
    handle: usize,
}

impl CompilationOptions {
    #[verifier::type_invariant]
    closed spec fn handle_non_null(self) -> bool {
        self.handle != 0
    }

    /// The raw handle this object owns.
    pub closed spec fn spec_handle(self) -> usize {
        self.handle
    }

    /// Decides the outcome of the C call that creates an options object: the
    /// reported status must be OK and the written handle non-null. The caller
    /// then selects the default accelerators (`Accelerators::default()`).
    pub fn from_created(status: LiteRtStatus, handle: usize) -> (r: Result<CompilationOptions>)
        ensures
            status != raw::K_LITERT_STATUS_OK ==> is_status_error(r, status),
            status == raw::K_LITERT_STATUS_OK && handle == 0 ==> r matches Err(Error::NullPointer),
            status == raw::K_LITERT_STATUS_OK && handle != 0 ==> (r matches Ok(o)
                && o.spec_handle() == handle),
    {
        let h = checked_handle(status, handle)?;
        Ok(CompilationOptions { handle: h })
    }

    /// Builder-style accelerator setter: `status` is what the runtime reported
    /// for the request. The options come back unchanged when it is OK.
    pub fn with_accelerators(self, status: LiteRtStatus) -> (r: Result<Self>)
        ensures
            status == raw::K_LITERT_STATUS_OK ==> (r matches Ok(o)
                && o.spec_handle() == self.spec_handle()),
            status != raw::K_LITERT_STATUS_OK ==> is_status_error(r, status),
    {
        check(status)?;
        Ok(self)
    }

    /// Raw handle, for passing to the C API; never null.
    pub fn as_raw(&self) -> (h: usize)
        ensures
            h == self.spec_handle(),
            h != 0,
    {
        proof {
            use_type_invariant(self);
        }
        self.handle
    }
}

/// `a | b` is the union of `a` and `b`: its bits are exactly those of either
/// set. Hence `a | a == a`, `a | NONE == a`, and `a | b` contains every
/// non-empty `b` and every `c` that `a` contains.
pub proof fn lemma_bitor_is_union(a: Accelerators, b: Accelerators, c: Accelerators)
    ensures
        Accelerators::obeys_bitor_spec(),
        a.bitor_req(b),
        a.bitor_spec(b).spec_bits() == a.spec_bits() | b.spec_bits(),
        a.bitor_spec(a) == a,
        a.bitor_spec(Accelerators::from_bits_spec(0)) == a,
        b.spec_bits() != 0 ==> a.bitor_spec(b).spec_contains(b),
        a.spec_contains(c) ==> a.bitor_spec(b).spec_contains(c),
        a.bitor_spec(b) == b.bitor_spec(a),
{
    let (x, y, z) = (a.spec_bits(), b.spec_bits(), c.spec_bits());
    assert(x | x == x) by (bit_vector);
    assert(x | 0i32 == x) by (bit_vector);
    assert(y != 0 ==> (x | y) & y != 0) by (bit_vector);
    assert(x & z != 0 ==> (x | y) & z != 0) by (bit_vector);
    assert(x | y == y | x) by (bit_vector);
    lemma_accelerators_bits_ext(a, a.bitor_spec(a), x);
    lemma_accelerators_bits_ext(a, a.bitor_spec(Accelerators::from_bits_spec(0)), x);
    lemma_accelerators_bits_ext(a.bitor_spec(b), b.bitor_spec(a), x);
}

} // verus!
