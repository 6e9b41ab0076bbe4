//! ARM Cortex-M4 floating-point unit control.
//!
//! The FPU register block starts at hardware address `0xE000_EF30`; at byte
//! offset `0xD88` it holds the 32-bit coprocessor access control sub-register
//! `cpac`, with two adjacent 2-bit fields: `cp10` in bits `20 ..= 21` and
//! `cp11` in bits `22 ..= 23`. Each field holds an access-mode code:
//!
//! - `0b00`: access denied
//! - `0b01`: privileged access
//! - `0b10`: reserved
//! - `0b11`: full access
//!
//! The FPU is disabled on reset, so `enable_fpu` must run during
//! initialisation before the first floating-point instruction. The platform
//! layer obtains the live register block by casting the hardware address;
//! this module holds the verified accessor logic over the register model.
//! A field write is a read-modify-write of the whole sub-register word and is
//! not atomic against an interrupt handler or bus master writing the same
//! word between its two halves.

use vstd::prelude::*;

use crate::bits::{
    field_get, field_set, lemma_set_preserves_disjoint, lemma_set_then_get_truncated,
    spec_field_get, spec_field_set, width_mask,
};
use crate::volatile::VolatileCell;

verus! {

/// The coprocessor access control sub-register: fields `cp10` (bits
/// `20 ..= 21`) and `cp11` (bits `22 ..= 23`) of one 32-bit word.
pub struct Cpac {
    reg: VolatileCell<u32>,
}

impl Cpac {
    /// The whole 32-bit word the sub-register holds.
    pub closed spec fn spec_value(self) -> u32 {
        self.reg.spec_get()
    }

    /// The access-mode code of coprocessor 10: bits `20 ..= 21`.
    pub open spec fn spec_cp10(self) -> u32 {
        spec_field_get(self.spec_value(), 20, 21)
    }

    /// The access-mode code of coprocessor 11: bits `22 ..= 23`.
    pub open spec fn spec_cp11(self) -> u32 {
        spec_field_get(self.spec_value(), 22, 23)
    }

    /// A sub-register whose word starts out as `value`.
    pub fn new(value: u32) -> (c: Cpac)
        ensures
            c.spec_value() == value,
    {
        Cpac { reg: VolatileCell::new(value) }
    }

    /// Read the whole 32-bit sub-register word: one load.
    pub fn value(&self) -> (r: u32)
        ensures
            r == self.spec_value(),
    {
        self.reg.get()
    }

    /// Read the `cp10` field.
    pub fn get_cp10(&self) -> (r: u32)
        ensures
            r == self.spec_cp10(),
            r <= 3,
    {
        proof {
            lemma_field_codes_fit(self.spec_value());
        }
        field_get(self.reg.get(), 20, 21)
    }

    /// Read the `cp11` field.
    pub fn get_cp11(&self) -> (r: u32)
        ensures
            r == self.spec_cp11(),
            r <= 3,
    {
        proof {
            lemma_field_codes_fit(self.spec_value());
        }
        field_get(self.reg.get(), 22, 23)
    }

    /// Write the `cp10` field: a read-modify-write of the whole word. The
    /// value is truncated to the field's two bits; `cp11` and every bit
    /// outside the field keep their values.
    pub fn set_cp10(&mut self, value: u32)
        ensures
            final(self).spec_value() == spec_field_set(old(self).spec_value(), 20, 21, value),
            final(self).spec_cp10() == value & 3,
            final(self).spec_cp11() == old(self).spec_cp11(),
    {
        let word = self.reg.get();
        self.reg.set(field_set(word, 20, 21, value));
        proof {
            lemma_two_bit_masks();
            lemma_set_then_get_truncated(word, 20, 21, value);
            lemma_set_preserves_disjoint(word, 20, 21, value, 22, 23);
        }
    }

    /// Write the `cp11` field: a read-modify-write of the whole word. The
    /// value is truncated to the field's two bits; `cp10` and every bit
    /// outside the field keep their values.
    pub fn set_cp11(&mut self, value: u32)
        ensures
            final(self).spec_value() == spec_field_set(old(self).spec_value(), 22, 23, value),
            final(self).spec_cp11() == value & 3,
            final(self).spec_cp10() == old(self).spec_cp10(),
    {
        let word = self.reg.get();
        self.reg.set(field_set(word, 22, 23, value));
        proof {
            lemma_two_bit_masks();
            lemma_set_then_get_truncated(word, 22, 23, value);
            lemma_set_preserves_disjoint(word, 22, 23, value, 20, 21);
        }
    }
}

/// The width mask of each 2-bit coprocessor field is `0b11`.
proof fn lemma_two_bit_masks()
    ensures
        width_mask(20, 21) == 3,
        width_mask(22, 23) == 3,
{
    assert(u32::MAX >> ((31 - (21 - 20)) as u32) == 3) by (bit_vector);
    assert(u32::MAX >> ((31 - (23 - 22)) as u32) == 3) by (bit_vector);
}

/// A 2-bit field never reads above `0b11`.
proof fn lemma_field_codes_fit(word: u32)
    ensures
        spec_field_get(word, 20, 21) <= 3,
        spec_field_get(word, 22, 23) <= 3,
{
    assert((word >> 20) & (u32::MAX >> ((31 - (21 - 20)) as u32)) <= 3) by (bit_vector);
    assert((word >> 22) & (u32::MAX >> ((31 - (23 - 22)) as u32)) <= 3) by (bit_vector);
}

/// The FPU register block: the coprocessor access control sub-register.
pub struct Fpu {
    pub cpac: Cpac,
}

impl Fpu {
    /// A register block whose `cpac` word starts out as `cpac_value`.
    pub fn new(cpac_value: u32) -> (f: Fpu)
        ensures
            f.cpac.spec_value() == cpac_value,
    {
        Fpu { cpac: Cpac::new(cpac_value) }
    }
}

/// Enable full-access FPU mode: set both coprocessor fields to `0b11`, each
/// by its own read-modify-write cycle, leaving every other bit of the word as
/// it was.
pub fn enable_fpu(fpu: &mut Fpu)
    ensures
        final(fpu).cpac.spec_cp10() == 3,
        final(fpu).cpac.spec_cp11() == 3,
        final(fpu).cpac.spec_value() == spec_field_set(
            spec_field_set(old(fpu).cpac.spec_value(), 20, 21, 3),
            22,
            23,
            3,
        ),
{
    fpu.cpac.set_cp10(0x3);
    fpu.cpac.set_cp11(0x3);
    proof {
        assert(3u32 & 3 == 3) by (bit_vector);
    }
}

/// Disable the FPU: set both coprocessor fields to the access-denied code
/// `0b00`, each by its own read-modify-write cycle, leaving every other bit
/// of the word as it was.
pub fn disable_fpu(fpu: &mut Fpu)
    ensures
        final(fpu).cpac.spec_cp10() == 0,
        final(fpu).cpac.spec_cp11() == 0,
        final(fpu).cpac.spec_value() == spec_field_set(
            spec_field_set(old(fpu).cpac.spec_value(), 20, 21, 0),
            22,
            23,
            0,
        ),
{
    fpu.cpac.set_cp10(0x0);
    fpu.cpac.set_cp11(0x0);
    proof {
        assert(0u32 & 3 == 0) by (bit_vector);
    }
}

} // verus!
