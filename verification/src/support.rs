//! Freestanding runtime support: the memory intrinsics the compiled-code
//! calling convention expects on a bare-metal target, and the CPU idle and
//! no-op primitives. The terminal abort handler (a debugger breakpoint
//! followed by an unconditional infinite loop) lives in the platform layer:
//! neither the breakpoint instruction nor a deliberately non-terminating
//! loop can stand in verified code.
//!
//! On the target these symbols are reached through the runtime linkage layer;
//! here each memory intrinsic is a verified function over plain byte
//! buffers. The fill loop
//! must survive on the target as real stores (destinations may be
//! memory-mapped hardware, so the stores are issued volatile there); what is
//! verified is the values the bytes hold afterwards.

use vstd::prelude::*;

verus! {

/// `bytes` with its first `n` elements replaced by `b` and the rest kept.
pub open spec fn filled_bytes(bytes: Seq<u8>, n: nat, b: u8) -> Seq<u8> {
    bytes.map(|i: int, old_byte: u8| if i < n { b } else { old_byte })
}

/// `bytes` with its first `n` elements zeroed and the rest kept.
pub open spec fn cleared_bytes(bytes: Seq<u8>, n: nat) -> Seq<u8> {
    filled_bytes(bytes, n, 0)
}

/// Copy `n` bytes from `src` into `dest`, byte by byte in ascending offset
/// order; bytes at and above offset `n` are untouched. The two buffers are
/// distinct by construction, so the regions cannot overlap.
pub fn __aeabi_memcpy(dest: &mut Vec<u8>, src: &Vec<u8>, n: usize)
    requires
        n <= old(dest).len(),
        n <= src.len(),
    ensures
        final(dest)@.len() == old(dest)@.len(),
        forall|i: int| 0 <= i < n ==> final(dest)@[i] == src@[i],
        forall|i: int| n <= i < old(dest)@.len() ==> final(dest)@[i] == old(dest)@[i],
{
    let mut i: usize = 0;
    while i < n
        invariant
            i <= n,
            n <= src.len(),
            n <= dest.len(),
            dest.len() == old(dest).len(),
            forall|j: int| 0 <= j < i ==> dest@[j] == src@[j],
            forall|j: int| i <= j < dest@.len() ==> dest@[j] == old(dest)@[j],
        decreases n - i,
    {
        let b = src[i];
        dest[i] = b;
        i += 1;
    }
}

/// Fill the first `size` bytes of `dest` with the low byte of `value`,
/// byte by byte in ascending offset order; bytes at and above offset `size`
/// are untouched. On the target each store is issued volatile, so the
/// compiler cannot prove the writes dead and drop them.
pub fn __aeabi_memset(dest: &mut Vec<u8>, size: usize, value: u32)
    requires
        size <= old(dest).len(),
    ensures
        final(dest)@ == filled_bytes(old(dest)@, size as nat, (value & 0xff) as u8),
{
    let b: u8 = (value & 0xff) as u8;
    let mut i: usize = 0;
    while i < size
        invariant
            i <= size,
            size <= dest.len(),
            dest.len() == old(dest).len(),
            b == (value & 0xff) as u8,
            forall|j: int| 0 <= j < i ==> dest@[j] == b,
            forall|j: int| i <= j < dest@.len() ==> dest@[j] == old(dest)@[j],
        decreases size - i,
    {
        dest[i] = b;
        i += 1;
    }
    proof {
        assert(dest@ =~= filled_bytes(old(dest)@, size as nat, b));
    }
}

/// Zero the first `size` bytes of `dest`; bytes at and above offset `size`
/// are untouched. Equivalent to filling with value `0`.
pub fn __aeabi_memclr(dest: &mut Vec<u8>, size: usize)
    requires
        size <= old(dest).len(),
    ensures
        final(dest)@ == cleared_bytes(old(dest)@, size as nat),
{
    __aeabi_memset(dest, size, 0);
    proof {
        assert(0u32 & 0xff == 0) by (bit_vector);
    }
}

/// Clearing a prefix is idempotent: clearing the first `n` bytes of an
/// already-cleared buffer changes nothing.
pub proof fn lemma_clear_idempotent(bytes: Seq<u8>, n: nat)
    ensures
        cleared_bytes(cleared_bytes(bytes, n), n) == cleared_bytes(bytes, n),
{
    assert(cleared_bytes(cleared_bytes(bytes, n), n) =~= cleared_bytes(bytes, n));
}

/// No-operation: the portable stand-in. A hardware target issues the
/// machine's no-op instruction in the platform layer; this build does
/// nothing at all.
pub fn nop() {
}

/// Wait-for-interrupt: the portable stand-in. A hardware target issues the
/// instruction that halts the CPU until the next interrupt in the platform
/// layer; this build returns at once with nothing changed.
pub fn wfi() {
}

} // verus!
