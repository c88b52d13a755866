//! The processor status register and the bit-level facts about it.
use vstd::prelude::*;

verus! {

pub const CARRY: u8 = 0x01;
pub const ZERO: u8 = 0x02;
pub const IRQ_DISABLE: u8 = 0x04;
pub const DECIMAL: u8 = 0x08;
pub const BREAK: u8 = 0x10;
pub const UNUSED: u8 = 0x20;
pub const OVERFLOW: u8 = 0x40;
pub const NEGATIVE: u8 = 0x80;

/// Whether the flag selected by `mask` is set in `p`.
pub open spec fn flag(p: u8, mask: u8) -> bool {
    p & mask != 0
}

/// `p` with the flag selected by `mask` set to `v`.
pub open spec fn with_flag(p: u8, mask: u8, v: bool) -> u8 {
    if v {
        p | mask
    } else {
        p & !mask
    }
}

/// `p` with Zero and Negative describing the byte `r`.
pub open spec fn with_nz(p: u8, r: u8) -> u8 {
    with_flag(with_flag(p, ZERO, r == 0), NEGATIVE, r >= 0x80)
}

pub open spec fn single_bit(mask: u8) -> bool {
    mask == 0x01 || mask == 0x02 || mask == 0x04 || mask == 0x08 || mask == 0x10 || mask == 0x20
        || mask == 0x40 || mask == 0x80
}

/// Setting one flag reads back as set, and leaves every other flag as it was.
pub proof fn lemma_with_flag(p: u8, mask: u8, v: bool, other: u8)
    requires
        single_bit(mask),
        single_bit(other),
        other != mask,
    ensures
        flag(with_flag(p, mask, v), mask) == v,
        flag(with_flag(p, mask, v), other) == flag(p, other),
{
    if v {
        assert((p | mask) & mask != 0) by (bit_vector)
            requires
                mask == 0x01 || mask == 0x02 || mask == 0x04 || mask == 0x08 || mask == 0x10
                    || mask == 0x20 || mask == 0x40 || mask == 0x80,
        ;
        assert(((p | mask) & other != 0) == (p & other != 0)) by (bit_vector)
            requires
                mask == 0x01 || mask == 0x02 || mask == 0x04 || mask == 0x08 || mask == 0x10
                    || mask == 0x20 || mask == 0x40 || mask == 0x80,
                other == 0x01 || other == 0x02 || other == 0x04 || other == 0x08 || other == 0x10
                    || other == 0x20 || other == 0x40 || other == 0x80,
                other != mask,
        ;
    } else {
        assert((p & !mask) & mask == 0) by (bit_vector);
        assert(((p & !mask) & other != 0) == (p & other != 0)) by (bit_vector)
            requires
                mask == 0x01 || mask == 0x02 || mask == 0x04 || mask == 0x08 || mask == 0x10
                    || mask == 0x20 || mask == 0x40 || mask == 0x80,
                other == 0x01 || other == 0x02 || other == 0x04 || other == 0x08 || other == 0x10
                    || other == 0x20 || other == 0x40 || other == 0x80,
                other != mask,
        ;
    }
}

/// After `with_nz(p, r)`, Zero tells whether `r` is 0 and Negative is bit 7 of `r`.
pub proof fn lemma_with_nz(p: u8, r: u8)
    ensures
        flag(with_nz(p, r), ZERO) == (r == 0),
        flag(with_nz(p, r), NEGATIVE) == (r >= 0x80),
        flag(with_nz(p, r), CARRY) == flag(p, CARRY),
        flag(with_nz(p, r), OVERFLOW) == flag(p, OVERFLOW),
{
    lemma_with_flag(p, ZERO, r == 0, NEGATIVE);
    lemma_with_flag(p, ZERO, r == 0, CARRY);
    lemma_with_flag(p, ZERO, r == 0, OVERFLOW);
    let q = with_flag(p, ZERO, r == 0);
    lemma_with_flag(q, NEGATIVE, r >= 0x80, ZERO);
    lemma_with_flag(q, NEGATIVE, r >= 0x80, CARRY);
    lemma_with_flag(q, NEGATIVE, r >= 0x80, OVERFLOW);
}

/// The eight-bit processor status register: C, Z, I, D, B, unused, V, N from bit 0 up.
#[derive(Debug, Clone, Copy, PartialEq, Eq, Structural)]
pub struct ProcessorStatus {
    reg: u8,
}

impl View for ProcessorStatus {
    type V = u8;

    closed spec fn view(&self) -> u8 {
        self.reg
    }
}

impl Default for ProcessorStatus {
    fn default() -> (r: Self)
        ensures
            r@ == 0,
    {
        Self::new()
    }
}

impl ProcessorStatus {
    /// A register with every flag clear.
    pub fn new() -> (r: ProcessorStatus)
        ensures
            r@ == 0,
    {
        ProcessorStatus { reg: 0 }
    }

    /// A register holding the given byte.
    pub fn from_reg(reg: u8) -> (r: ProcessorStatus)
        ensures
            r@ == reg,
    {
        ProcessorStatus { reg }
    }

    /// Sets Zero and Negative from the byte `r`.
    pub fn set_nz(&mut self, r: u8)
        ensures
            final(self)@ == with_nz(old(self)@, r),
    {
        self.set_zero(r == 0);
        self.set_negative(r >= 0x80);
    }

    /// The whole register as a byte.
    pub fn get_reg(&self) -> (r: u8)
        ensures
            r == self@,
    {
        self.reg
    }

    /// Carry (bit 0).
    pub fn carry(&self) -> (r: bool)
        ensures
            r == flag(self@, CARRY),
    {
        self.reg & CARRY != 0
    }

    pub fn set_carry(&mut self, value: bool)
        ensures
            final(self)@ == with_flag(old(self)@, CARRY, value),
    {
        if value {
            self.reg = self.reg | CARRY;
        } else {
            self.reg = self.reg & !CARRY;
        }
    }

    /// Zero (bit 1).
    pub fn zero(&self) -> (r: bool)
        ensures
            r == flag(self@, ZERO),
    {
        self.reg & ZERO != 0
    }

    pub fn set_zero(&mut self, value: bool)
        ensures
            final(self)@ == with_flag(old(self)@, ZERO, value),
    {
        if value {
            self.reg = self.reg | ZERO;
        } else {
            self.reg = self.reg & !ZERO;
        }
    }

    /// Interrupt disable (bit 2).
    pub fn irqb(&self) -> (r: bool)
        ensures
            r == flag(self@, IRQ_DISABLE),
    {
        self.reg & IRQ_DISABLE != 0
    }

    pub fn set_irqb(&mut self, value: bool)
        ensures
            final(self)@ == with_flag(old(self)@, IRQ_DISABLE, value),
    {
        if value {
            self.reg = self.reg | IRQ_DISABLE;
        } else {
            self.reg = self.reg & !IRQ_DISABLE;
        }
    }

    /// Decimal mode (bit 3); stored but ignored by arithmetic.
    pub fn decimal(&self) -> (r: bool)
        ensures
            r == flag(self@, DECIMAL),
    {
        self.reg & DECIMAL != 0
    }

    pub fn set_decimal(&mut self, value: bool)
        ensures
            final(self)@ == with_flag(old(self)@, DECIMAL, value),
    {
        if value {
            self.reg = self.reg | DECIMAL;
        } else {
            self.reg = self.reg & !DECIMAL;
        }
    }

    /// Break (bit 4).
    pub fn brk(&self) -> (r: bool)
        ensures
            r == flag(self@, BREAK),
    {
        self.reg & BREAK != 0
    }

    pub fn set_brk(&mut self, value: bool)
        ensures
            final(self)@ == with_flag(old(self)@, BREAK, value),
    {
        if value {
            self.reg = self.reg | BREAK;
        } else {
            self.reg = self.reg & !BREAK;
        }
    }

    /// Overflow (bit 6).
    pub fn overflow(&self) -> (r: bool)
        ensures
            r == flag(self@, OVERFLOW),
    {
        self.reg & OVERFLOW != 0
    }

    pub fn set_overflow(&mut self, value: bool)
        ensures
            final(self)@ == with_flag(old(self)@, OVERFLOW, value),
    {
        if value {
            self.reg = self.reg | OVERFLOW;
        } else {
            self.reg = self.reg & !OVERFLOW;
        }
    }

    /// Negative (bit 7).
    pub fn negative(&self) -> (r: bool)
        ensures
            r == flag(self@, NEGATIVE),
    {
        self.reg & NEGATIVE != 0
    }

    pub fn set_negative(&mut self, value: bool)
        ensures
            final(self)@ == with_flag(old(self)@, NEGATIVE, value),
    {
        if value {
            self.reg = self.reg | NEGATIVE;
        } else {
            self.reg = self.reg & !NEGATIVE;
        }
    }
}

} // verus!
