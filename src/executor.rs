use vstd::prelude::*;
use crate::instruction::Instruction;

verus! {

/// What a system instruction asks of the host.
#[derive(Clone, Copy, Debug, PartialEq, Eq, Structural)]
pub enum SystemCall {
    /// `00E0`: clear the display.
    ClearScreen,
    /// `00EE`: return from a subroutine.
    Return,
    /// Any other word.
    Unknown,
}

/// The request that word `w` makes.
pub open spec fn system_call_of(w: u16) -> SystemCall {
    if w == 0x00E0 {
        SystemCall::ClearScreen
    } else if w == 0x00EE {
        SystemCall::Return
    } else {
        SystemCall::Unknown
    }
}

/// Sorts system instructions into the requests that the host carries out.
pub struct Executor {}

impl Executor {
    /// No display is attached here: the host clears its own.
    fn clear_screen(&self) {
    }

    pub fn new() -> Executor {
        Executor {  }
    }

    pub fn execute(&self, instruction: Instruction) -> (r: SystemCall)
        ensures
            r == system_call_of(instruction@),
    {
        let val = instruction.raw();
        match val {
            0x00E0 => {
                self.clear_screen();
                SystemCall::ClearScreen
            },
            0x00EE => SystemCall::Return,
            _ => SystemCall::Unknown,
        }
    }
}

} // verus!
