//! The processor status byte as a set of named flags.
use vstd::prelude::*;

verus! {

/// The last operation carried out of bit 7, or did not borrow.
pub const CARRY: u8 = 0b0000_0001;

/// The last result was zero.
pub const ZERO: u8 = 0b0000_0010;

/// Interrupts are masked.
pub const INTERRUPT_DISABLE: u8 = 0b0000_0100;

/// Decimal mode is selected; it changes no arithmetic here.
pub const DECIMAL_MODE: u8 = 0b0000_1000;

/// Set in a status byte that an instruction pushed.
pub const BREAK: u8 = 0b0001_0000;

/// The bit that reads as set in every pushed or pulled status byte.
pub const BREAK2: u8 = 0b0010_0000;

/// The last addition left the range of a signed byte.
pub const OVERFLOW: u8 = 0b0100_0000;

/// Bit 7 of the last result.
pub const NEGATIVE: u8 = 0b1000_0000;

/// The status byte after reset: InterruptDisable and Break2 set.
pub const RESET_BITS: u8 = 0b0010_0100;

/// Eight independent flags packed into one byte.
#[derive(Clone, Copy, Debug, PartialEq, Eq, Structural)]
pub struct CpuFlags {
    pub bits: u8,
}

/// True when `mask` names exactly one flag.
pub open spec fn is_flag(mask: u8) -> bool {
    mask == CARRY || mask == ZERO || mask == INTERRUPT_DISABLE || mask == DECIMAL_MODE || mask
        == BREAK || mask == BREAK2 || mask == OVERFLOW || mask == NEGATIVE
}

impl CpuFlags {
    /// Every flag of `mask` is set.
    pub open spec fn has(self, mask: u8) -> bool {
        self.bits & mask == mask
    }

    /// The flags of `mask` switched on or off, the others as they were.
    pub open spec fn with(self, mask: u8, on: bool) -> CpuFlags {
        if on {
            CpuFlags { bits: self.bits | mask }
        } else {
            CpuFlags { bits: self.bits & !mask }
        }
    }

    /// Zero and Negative recomputed from a result byte.
    pub open spec fn with_zn(self, result: u8) -> CpuFlags {
        self.with(ZERO, result == 0).with(NEGATIVE, result >= 0x80)
    }

    /// Break cleared and Break2 set, as after the status byte is pulled from
    /// the stack.
    pub open spec fn pulled(bits: u8) -> CpuFlags {
        (CpuFlags { bits }).with(BREAK, false).with(BREAK2, true)
    }

    /// The byte that goes on the stack: Break and Break2 forced on.
    pub open spec fn pushed(self) -> u8 {
        self.with(BREAK, true).with(BREAK2, true).bits
    }

    /// The flags of a status byte. All eight bits name a flag, so none is
    /// dropped.
    pub fn from_bits_truncate(bits: u8) -> (flags: CpuFlags)
        ensures
            flags.bits == bits,
    {
        CpuFlags { bits }
    }

    /// The status byte.
    pub fn bits(&self) -> (bits: u8)
        ensures
            bits == self.bits,
    {
        self.bits
    }

    /// Whether every flag of `mask` is set.
    pub fn contains(&self, mask: u8) -> (held: bool)
        ensures
            held == self.has(mask),
    {
        self.bits & mask == mask
    }

    /// Sets the flags of `mask`.
    pub fn insert(&mut self, mask: u8)
        ensures
            *final(self) == old(self).with(mask, true),
    {
        self.bits = self.bits | mask;
    }

    /// Clears the flags of `mask`.
    pub fn remove(&mut self, mask: u8)
        ensures
            *final(self) == old(self).with(mask, false),
    {
        self.bits = self.bits & !mask;
    }

    /// Sets or clears the flags of `mask`.
    pub fn set(&mut self, mask: u8, on: bool)
        ensures
            *final(self) == old(self).with(mask, on),
    {
        if on {
            self.insert(mask);
        } else {
            self.remove(mask);
        }
    }
}

/// Switching one flag sets that flag as asked and leaves every other flag
/// alone.
pub proof fn lemma_with_flag(flags: CpuFlags, mask: u8, on: bool, other: u8)
    requires
        is_flag(mask),
        is_flag(other),
    ensures
        flags.with(mask, on).has(mask) == on,
        other != mask ==> flags.with(mask, on).has(other) == flags.has(other),
{
    let b = flags.bits;
    assert(mask != 0 && (b | mask) & mask == mask && (b & !mask) & mask == 0) by (bit_vector)
        requires
            mask == 1 || mask == 2 || mask == 4 || mask == 8 || mask == 16 || mask == 32 || mask
                == 64 || mask == 128,
    ;
    assert(other != mask ==> (b | mask) & other == b & other && (b & !mask) & other == b & other)
        by (bit_vector)
        requires
            mask == 1 || mask == 2 || mask == 4 || mask == 8 || mask == 16 || mask == 32 || mask
                == 64 || mask == 128,
            other == 1 || other == 2 || other == 4 || other == 8 || other == 16 || other == 32
                || other == 64 || other == 128,
    ;
}

/// After Zero and Negative are recomputed from `result`, Zero is set exactly
/// when the byte is 0, Negative exactly when its bit 7 is set, and each of
/// the six other flags is as before.
pub proof fn lemma_with_zn(flags: CpuFlags, result: u8, other: u8)
    requires
        is_flag(other),
    ensures
        flags.with_zn(result).has(ZERO) <==> result == 0,
        flags.with_zn(result).has(NEGATIVE) <==> result & 0x80 != 0,
        flags.with_zn(result).has(NEGATIVE) <==> result >= 0x80,
        other != ZERO && other != NEGATIVE ==> flags.with_zn(result).has(other) == flags.has(
            other,
        ),
{
    let z = flags.with(ZERO, result == 0);
    lemma_with_flag(flags, ZERO, result == 0, ZERO);
    lemma_with_flag(z, NEGATIVE, result >= 0x80, ZERO);
    lemma_with_flag(z, NEGATIVE, result >= 0x80, NEGATIVE);
    lemma_with_flag(flags, ZERO, result == 0, other);
    lemma_with_flag(z, NEGATIVE, result >= 0x80, other);
    assert((result & 0x80 != 0) == (result >= 0x80)) by (bit_vector);
}

/// Pushing the status and pulling it back keeps every flag but Break, which
/// comes back clear, and Break2, which comes back set.
pub proof fn lemma_push_pull(flags: CpuFlags, other: u8)
    requires
        is_flag(other),
    ensures
        !CpuFlags::pulled(flags.pushed()).has(BREAK),
        CpuFlags::pulled(flags.pushed()).has(BREAK2),
        other != BREAK && other != BREAK2 ==> CpuFlags::pulled(flags.pushed()).has(other)
            == flags.has(other),
{
    let a = flags.with(BREAK, true);
    let b = a.with(BREAK2, true);
    let c = b.with(BREAK, false);
    lemma_with_flag(flags, BREAK, true, other);
    lemma_with_flag(a, BREAK2, true, other);
    lemma_with_flag(b, BREAK, false, other);
    lemma_with_flag(c, BREAK2, true, other);
    lemma_with_flag(b, BREAK, false, BREAK);
    lemma_with_flag(c, BREAK2, true, BREAK);
    lemma_with_flag(c, BREAK2, true, BREAK2);
}

} // verus!
