use vstd::prelude::*;

verus! {

/// Instruction bytes of the BH1750.
#[allow(non_camel_case_types)]
#[derive(Debug, Clone, Copy, PartialEq, Eq, Structural)]
pub enum Register {
    POWER_DOWN,
    POWER_ON,
    RESET,
    CONTINUOUSLY_H_RES_MODE,
    CONTINUOUSLY_H_RES_MODE2,
    CONTINUOUSLY_L_RES_MODE,
    ONE_TIME_H_RES_MODE,
    ONE_TIME_H_RES_MODE2,
    ONE_TIME_L_RES_MODE,
}

impl Register {
    /// The instruction byte.
    pub open spec fn spec_code(self) -> u8 {
        match self {
            Register::POWER_DOWN => 0b0000_0000,
            Register::POWER_ON => 0b0000_0001,
            Register::RESET => 0b0000_0111,
            Register::CONTINUOUSLY_H_RES_MODE => 0b0001_0000,
            Register::CONTINUOUSLY_H_RES_MODE2 => 0b0001_0001,
            Register::CONTINUOUSLY_L_RES_MODE => 0b0001_0011,
            Register::ONE_TIME_H_RES_MODE => 0b0010_0000,
            Register::ONE_TIME_H_RES_MODE2 => 0b0010_0001,
            Register::ONE_TIME_L_RES_MODE => 0b0010_0011,
        }
    }

    pub fn code(self) -> (r: u8)
        ensures
            r == self.spec_code(),
    {
        match self {
            Register::POWER_DOWN => 0b0000_0000,
            Register::POWER_ON => 0b0000_0001,
            Register::RESET => 0b0000_0111,
            Register::CONTINUOUSLY_H_RES_MODE => 0b0001_0000,
            Register::CONTINUOUSLY_H_RES_MODE2 => 0b0001_0001,
            Register::CONTINUOUSLY_L_RES_MODE => 0b0001_0011,
            Register::ONE_TIME_H_RES_MODE => 0b0010_0000,
            Register::ONE_TIME_H_RES_MODE2 => 0b0010_0001,
            Register::ONE_TIME_L_RES_MODE => 0b0010_0011,
        }
    }
}

} // verus!
