//! What the two-register processor refuses.

use vstd::prelude::*;
use vstd::string::*;

use crate::text::{decimal, push_decimal};

verus! {

pub type CPUResult<T> = Result<T, CPUError>;

/// An opcode or a register that the processor does not have.
#[derive(Debug, PartialEq, Eq, Structural)]
pub enum CPUError {
    InvalidOpcode(u16),
    InvalidRegister(usize),
}

impl CPUError {
    /// The message of the error.
    pub open spec fn message(self) -> Seq<char> {
        match self {
            CPUError::InvalidOpcode(val) => decimal(val as nat) + " is not a valid opcode."@,
            CPUError::InvalidRegister(val) => decimal(val as nat) + " is not a valid register."@,
        }
    }

    /// The message of the error, as text.
    pub fn to_string(&self) -> (s: String)
        ensures
            s@ == self.message(),
    {
        let mut s = String::new();
        match self {
            CPUError::InvalidOpcode(val) => {
                push_decimal(&mut s, *val as usize);
                s.append(" is not a valid opcode.");
            },
            CPUError::InvalidRegister(val) => {
                push_decimal(&mut s, *val);
                s.append(" is not a valid register.");
            },
        }
        s
    }
}

} // verus!
