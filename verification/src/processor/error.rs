//! What the second two-register processor refuses.

use vstd::prelude::*;
use vstd::string::*;

use crate::text::{decimal, push_decimal};

verus! {

pub type ProcessorResult<T> = Result<T, ProcessorError>;

/// An opcode or a register that the processor does not have.
#[derive(Debug, PartialEq, Eq, Structural)]
pub enum ProcessorError {
    InvalidOpcode(u16),
    InvalidRegister(usize),
}

impl ProcessorError {
    /// The message of the error.
    pub open spec fn message(self) -> Seq<char> {
        match self {
            ProcessorError::InvalidOpcode(val) => decimal(val as nat) + " is not a valid opcode."@,
            ProcessorError::InvalidRegister(val) => decimal(val as nat) + " is not a valid register."@,
        }
    }

    /// The message of the error, as text.
    pub fn to_string(&self) -> (s: String)
        ensures
            s@ == self.message(),
    {
        let mut s = String::new();
        match self {
            ProcessorError::InvalidOpcode(val) => {
                push_decimal(&mut s, *val as usize);
                s.append(" is not a valid opcode.");
            },
            ProcessorError::InvalidRegister(val) => {
                push_decimal(&mut s, *val);
                s.append(" is not a valid register.");
            },
        }
        s
    }
}

} // verus!
