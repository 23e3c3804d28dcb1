use vstd::prelude::*;

verus! {

/// One of the 32 general-purpose registers: D0..D15 are the data registers
/// (ordinals 0..15), A0..A15 the address registers (ordinals 16..31).
#[derive(Debug, PartialEq, Eq, Clone, Copy, Structural)]
pub enum Register {
    D0,
    D1,
    D2,
    D3,
    D4,
    D5,
    D6,
    D7,
    D8,
    D9,
    D10,
    D11,
    D12,
    D13,
    D14,
    D15,
    A0,
    A1,
    A2,
    A3,
    A4,
    A5,
    A6,
    A7,
    A8,
    A9,
    A10,
    A11,
    A12,
    A13,
    A14,
    A15,
}

impl Register {
    /// The register's position in the register file.
    pub open spec fn ordinal(self) -> nat {
        match self {
            Register::D0 => 0,
            Register::D1 => 1,
            Register::D2 => 2,
            Register::D3 => 3,
            Register::D4 => 4,
            Register::D5 => 5,
            Register::D6 => 6,
            Register::D7 => 7,
            Register::D8 => 8,
            Register::D9 => 9,
            Register::D10 => 10,
            Register::D11 => 11,
            Register::D12 => 12,
            Register::D13 => 13,
            Register::D14 => 14,
            Register::D15 => 15,
            Register::A0 => 16,
            Register::A1 => 17,
            Register::A2 => 18,
            Register::A3 => 19,
            Register::A4 => 20,
            Register::A5 => 21,
            Register::A6 => 22,
            Register::A7 => 23,
            Register::A8 => 24,
            Register::A9 => 25,
            Register::A10 => 26,
            Register::A11 => 27,
            Register::A12 => 28,
            Register::A13 => 29,
            Register::A14 => 30,
            Register::A15 => 31,
        }
    }

    /// The register whose ordinal is `pattern`; ordinals from 31 on all name A15.
    pub open spec fn from_ordinal(pattern: u32) -> Register {
        match pattern {
            0 => Register::D0,
            1 => Register::D1,
            2 => Register::D2,
            3 => Register::D3,
            4 => Register::D4,
            5 => Register::D5,
            6 => Register::D6,
            7 => Register::D7,
            8 => Register::D8,
            9 => Register::D9,
            10 => Register::D10,
            11 => Register::D11,
            12 => Register::D12,
            13 => Register::D13,
            14 => Register::D14,
            15 => Register::D15,
            16 => Register::A0,
            17 => Register::A1,
            18 => Register::A2,
            19 => Register::A3,
            20 => Register::A4,
            21 => Register::A5,
            22 => Register::A6,
            23 => Register::A7,
            24 => Register::A8,
            25 => Register::A9,
            26 => Register::A10,
            27 => Register::A11,
            28 => Register::A12,
            29 => Register::A13,
            30 => Register::A14,
            _ => Register::A15,
        }
    }

    /// Address registers are A0..A15.
    pub open spec fn is_address(self) -> bool {
        self.ordinal() >= 16
    }

    /// The register with the given ordinal.
    pub fn new(pattern: u32) -> (r: Register)
        requires
            pattern < 32,
        ensures
            r == Register::from_ordinal(pattern),
            r.ordinal() == pattern,
    {
        match pattern {
            0 => Register::D0,
            1 => Register::D1,
            2 => Register::D2,
            3 => Register::D3,
            4 => Register::D4,
            5 => Register::D5,
            6 => Register::D6,
            7 => Register::D7,
            8 => Register::D8,
            9 => Register::D9,
            10 => Register::D10,
            11 => Register::D11,
            12 => Register::D12,
            13 => Register::D13,
            14 => Register::D14,
            15 => Register::D15,
            16 => Register::A0,
            17 => Register::A1,
            18 => Register::A2,
            19 => Register::A3,
            20 => Register::A4,
            21 => Register::A5,
            22 => Register::A6,
            23 => Register::A7,
            24 => Register::A8,
            25 => Register::A9,
            26 => Register::A10,
            27 => Register::A11,
            28 => Register::A12,
            29 => Register::A13,
            30 => Register::A14,
            _ => Register::A15,
        }
    }

    /// The register's ordinal as a machine word.
    pub fn index(&self) -> (r: u32)
        ensures
            r == self.ordinal(),
    {
        match self {
            Register::D0 => 0,
            Register::D1 => 1,
            Register::D2 => 2,
            Register::D3 => 3,
            Register::D4 => 4,
            Register::D5 => 5,
            Register::D6 => 6,
            Register::D7 => 7,
            Register::D8 => 8,
            Register::D9 => 9,
            Register::D10 => 10,
            Register::D11 => 11,
            Register::D12 => 12,
            Register::D13 => 13,
            Register::D14 => 14,
            Register::D15 => 15,
            Register::A0 => 16,
            Register::A1 => 17,
            Register::A2 => 18,
            Register::A3 => 19,
            Register::A4 => 20,
            Register::A5 => 21,
            Register::A6 => 22,
            Register::A7 => 23,
            Register::A8 => 24,
            Register::A9 => 25,
            Register::A10 => 26,
            Register::A11 => 27,
            Register::A12 => 28,
            Register::A13 => 29,
            Register::A14 => 30,
            Register::A15 => 31,
        }
    }

    /// Whether this is one of the address registers A0..A15.
    pub fn is_address_register(&self) -> (r: bool)
        ensures
            r == self.is_address(),
    {
        self.index() >= 16
    }
}

/// Register identity is positional: the ordinals 0..31 and the 32 registers
/// are in one-to-one correspondence, so converting an ordinal to a register
/// and back gives the ordinal, and a register to its ordinal and back gives
/// the register.
pub proof fn lemma_register_ordinal_bijection()
    ensures
        forall|p: u32| p < 32 ==> (#[trigger] Register::from_ordinal(p)).ordinal() == p,
        forall|r: Register| #![trigger r.ordinal()] r.ordinal() < 32 && Register::from_ordinal(r.ordinal() as u32) == r,
{
}

impl From<Register> for u32 {
    fn from(value: Register) -> (r: u32) {
        value.index()
    }
}

impl vstd::std_specs::convert::FromSpecImpl<Register> for u32 {
    open spec fn obeys_from_spec() -> bool {
        true
    }

    open spec fn from_spec(v: Register) -> u32 {
        v.ordinal() as u32
    }
}

} // verus!
