use vstd::prelude::*;
use crate::cpu::{Cpu, initial_state};
use crate::ram::{Ram, blank_memory};

verus! {

/// One virtual machine: its memory and the processor that runs against it.
pub struct Chip8 {
    pub ram: Ram,
    pub cpu: Cpu,
}

impl Chip8 {
    pub fn new() -> (r: Chip8)
        ensures
            r.ram@ == blank_memory(),
            r.cpu@ == initial_state(),
    {
        Chip8 { ram: Ram::new(), cpu: Cpu::new() }
    }
}

} // verus!
