//! Register codes: two small enumerations, each in bijection with a range of
//! compact bit codes (3 bits for integer registers, 2 bits for ratio
//! registers).

use vstd::prelude::*;

verus! {

/// One of the eight integer registers, identified by a unique 3-bit code.
#[derive(Debug, Clone, Copy, PartialEq, Eq, PartialOrd, Ord, Hash, Structural)]
pub enum IntRegister {
    I0,
    I1,
    I2,
    I3,
    I4,
    I5,
    I6,
    I7,
}

impl IntRegister {
    /// The 3-bit code of this register.
    pub open spec fn spec_code(self) -> u8 {
        match self {
            IntRegister::I0 => 0,
            IntRegister::I1 => 1,
            IntRegister::I2 => 2,
            IntRegister::I3 => 3,
            IntRegister::I4 => 4,
            IntRegister::I5 => 5,
            IntRegister::I6 => 6,
            IntRegister::I7 => 7,
        }
    }

    /// The register whose code is `code`, if any: the inverse of `spec_code`
    /// on `[0, 8)`.
    pub open spec fn spec_from_code(code: u8) -> Option<IntRegister> {
        if code == 0 {
            Some(IntRegister::I0)
        } else if code == 1 {
            Some(IntRegister::I1)
        } else if code == 2 {
            Some(IntRegister::I2)
        } else if code == 3 {
            Some(IntRegister::I3)
        } else if code == 4 {
            Some(IntRegister::I4)
        } else if code == 5 {
            Some(IntRegister::I5)
        } else if code == 6 {
            Some(IntRegister::I6)
        } else if code == 7 {
            Some(IntRegister::I7)
        } else {
            None
        }
    }

    pub fn code(self) -> (r: u8)
        ensures
            r == self.spec_code(),
            r < 8,
    {
        match self {
            IntRegister::I0 => 0,
            IntRegister::I1 => 1,
            IntRegister::I2 => 2,
            IntRegister::I3 => 3,
            IntRegister::I4 => 4,
            IntRegister::I5 => 5,
            IntRegister::I6 => 6,
            IntRegister::I7 => 7,
        }
    }

    pub fn from_code(code: u8) -> (r: Option<IntRegister>)
        ensures
            r == Self::spec_from_code(code),
    {
        match code {
            0 => Some(IntRegister::I0),
            1 => Some(IntRegister::I1),
            2 => Some(IntRegister::I2),
            3 => Some(IntRegister::I3),
            4 => Some(IntRegister::I4),
            5 => Some(IntRegister::I5),
            6 => Some(IntRegister::I6),
            7 => Some(IntRegister::I7),
            _ => None,
        }
    }
}

/// Law: `spec_code` and `spec_from_code` form a bijection between the eight
/// integer registers and the codes `[0, 8)`; every code of 8 or more maps to
/// no register.
pub proof fn lemma_int_register_code_bijection()
    ensures
        forall|c: u8|
            c < 8 ==> (#[trigger] IntRegister::spec_from_code(c)) is Some
                && IntRegister::spec_from_code(c)->Some_0.spec_code() == c,
        forall|c: u8| c >= 8 ==> (#[trigger] IntRegister::spec_from_code(c)) is None,
        forall|r: IntRegister| #[trigger] IntRegister::spec_from_code(r.spec_code()) == Some(r),
{
}

/// One of the four ratio registers, identified by a unique 2-bit code.
#[derive(Debug, Clone, Copy, PartialEq, Eq, PartialOrd, Ord, Hash, Structural)]
pub enum RatioRegister {
    R0,
    R1,
    R2,
    R3,
}

impl RatioRegister {
    /// The 2-bit code of this register.
    pub open spec fn spec_code(self) -> u8 {
        match self {
            RatioRegister::R0 => 0,
            RatioRegister::R1 => 1,
            RatioRegister::R2 => 2,
            RatioRegister::R3 => 3,
        }
    }

    /// The register whose code is `code`, if any: the inverse of `spec_code`
    /// on `[0, 4)`.
    pub open spec fn spec_from_code(code: u8) -> Option<RatioRegister> {
        if code == 0 {
            Some(RatioRegister::R0)
        } else if code == 1 {
            Some(RatioRegister::R1)
        } else if code == 2 {
            Some(RatioRegister::R2)
        } else if code == 3 {
            Some(RatioRegister::R3)
        } else {
            None
        }
    }

    pub fn code(self) -> (r: u8)
        ensures
            r == self.spec_code(),
            r < 4,
    {
        match self {
            RatioRegister::R0 => 0,
            RatioRegister::R1 => 1,
            RatioRegister::R2 => 2,
            RatioRegister::R3 => 3,
        }
    }

    pub fn from_code(code: u8) -> (r: Option<RatioRegister>)
        ensures
            r == Self::spec_from_code(code),
    {
        match code {
            0 => Some(RatioRegister::R0),
            1 => Some(RatioRegister::R1),
            2 => Some(RatioRegister::R2),
            3 => Some(RatioRegister::R3),
            _ => None,
        }
    }
}

/// Law: `spec_code` and `spec_from_code` form a bijection between the four
/// ratio registers and the codes `[0, 4)`; every code of 4 or more maps to no
/// register.
pub proof fn lemma_ratio_register_code_bijection()
    ensures
        forall|c: u8|
            c < 4 ==> (#[trigger] RatioRegister::spec_from_code(c)) is Some
                && RatioRegister::spec_from_code(c)->Some_0.spec_code() == c,
        forall|c: u8| c >= 4 ==> (#[trigger] RatioRegister::spec_from_code(c)) is None,
        forall|r: RatioRegister| #[trigger] RatioRegister::spec_from_code(r.spec_code()) == Some(r),
{
}

} // verus!
