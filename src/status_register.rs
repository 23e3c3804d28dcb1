use vstd::prelude::*;

verus! {

/// The condition flags and their bit positions in the status word.
#[derive(Debug, PartialEq, Eq, Clone, Copy, Structural)]
pub enum Flags {
    /// The last written value had its top bit set.
    Negative,
    /// An operation over- or underflowed (reserved).
    Overflow,
    /// An operation carried out of the top bit (reserved).
    Carry,
    /// The last result had an even number of set bits (reserved).
    Parity,
    /// The last written value was zero.
    Zero,
    /// An interrupt is pending (reserved).
    Interrupt,
    /// Interrupts are delivered only while this is set (reserved).
    InterruptEnable,
    /// Single-step trap for debugging (reserved).
    Trap,
}

impl Flags {
    /// The flag's bit position in the status word.
    pub open spec fn position(self) -> u16 {
        match self {
            Flags::Negative => 15,
            Flags::Overflow => 14,
            Flags::Carry => 13,
            Flags::Parity => 12,
            Flags::Zero => 11,
            Flags::Interrupt => 10,
            Flags::InterruptEnable => 9,
            Flags::Trap => 8,
        }
    }

    /// The flag's bit position in the status word.
    pub fn bit(&self) -> (r: u16)
        ensures
            r == self.position(),
    {
        match self {
            Flags::Negative => 15,
            Flags::Overflow => 14,
            Flags::Carry => 13,
            Flags::Parity => 12,
            Flags::Zero => 11,
            Flags::Interrupt => 10,
            Flags::InterruptEnable => 9,
            Flags::Trap => 8,
        }
    }
}

/// Whether bit `position` of `flags` is set.
pub open spec fn bit_set(flags: u16, position: u16) -> bool {
    (flags >> position) & 1 == 1
}

/// A word of condition flags, one bit each.
pub struct StatusRegister {
    pub flags: u16,
}

impl StatusRegister {
    /// No flag set.
    pub fn new() -> (r: StatusRegister)
        ensures
            r.flags == 0,
    {
        StatusRegister { flags: 0 }
    }

    /// Whether `flag` is set.
    pub open spec fn has(&self, flag: Flags) -> bool {
        bit_set(self.flags, flag.position())
    }

    /// Sets `flag`, leaving every other bit as it was.
    pub fn raise(&mut self, flag: Flags)
        ensures
            final(self).has(flag),
            forall|p: u16| p < 16 && p != flag.position() ==> bit_set(final(self).flags, p) == bit_set(old(self).flags, p),
    {
        let position = flag.bit();
        let before = self.flags;
        self.flags = before | (1u16 << position);
        proof {
            lemma_set_bit(before, position);
        }
    }

    /// Clears `flag`, leaving every other bit as it was.
    pub fn clear(&mut self, flag: Flags)
        ensures
            !final(self).has(flag),
            forall|p: u16| p < 16 && p != flag.position() ==> bit_set(final(self).flags, p) == bit_set(old(self).flags, p),
    {
        let position = flag.bit();
        let before = self.flags;
        self.flags = before & !(1u16 << position);
        proof {
            lemma_clear_bit(before, position);
        }
    }

    /// Whether `flag` is set.
    pub fn is_raised(&self, flag: Flags) -> (r: bool)
        ensures
            r == self.has(flag),
    {
        let position = flag.bit();
        (self.flags >> position) & 1 == 1
    }

    /// The whole status word.
    pub fn status_bits(&self) -> (r: u16)
        ensures
            r == self.flags,
    {
        self.flags
    }
}

proof fn lemma_set_bit(f: u16, b: u16)
    requires
        b < 16,
    ensures
        bit_set(f | (1u16 << b), b),
        forall|p: u16| p < 16 && p != b ==> bit_set(f | (1u16 << b), p) == bit_set(f, p),
{
    assert(b < 16 ==> ((f | (1u16 << b)) >> b) & 1 == 1) by (bit_vector);
    assert forall|p: u16| p < 16 && p != b implies bit_set(f | (1u16 << b), p) == bit_set(f, p) by {
        assert(p < 16 && b < 16 && p != b ==> (((f | (1u16 << b)) >> p) & 1 == 1) == (((f >> p) & 1)
            == 1)) by (bit_vector);
    }
}

proof fn lemma_clear_bit(f: u16, b: u16)
    requires
        b < 16,
    ensures
        !bit_set(f & !(1u16 << b), b),
        forall|p: u16| p < 16 && p != b ==> bit_set(f & !(1u16 << b), p) == bit_set(f, p),
{
    assert(b < 16 ==> ((f & !(1u16 << b)) >> b) & 1 == 0) by (bit_vector);
    assert forall|p: u16| p < 16 && p != b implies bit_set(f & !(1u16 << b), p) == bit_set(f, p) by {
        assert(p < 16 && b < 16 && p != b ==> (((f & !(1u16 << b)) >> p) & 1 == 1) == (((f >> p) & 1)
            == 1)) by (bit_vector);
    }
}

} // verus!
