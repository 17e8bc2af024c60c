use vstd::prelude::*;
use crate::instruction::{Instruction, op_of, x_of, y_of, n_of, nn_of, nnn_of};
use crate::ram::{Ram, MEMORY_SIZE};

verus! {

/// Address at which programs are loaded; jumps are taken relative to it.
pub const START: u16 = 0x200;

/// The register that arithmetic overwrites with its carry or borrow.
pub const CARRY_FLAG: usize = 0xF;

/// Why a cycle stopped before changing any state.
#[derive(Clone, Copy, Debug, PartialEq, Eq, Structural)]
pub enum ExecError {
    /// No operation is defined for this word.
    UnknownInstruction(u16),
    /// The first address that the cycle needed and that lies outside memory.
    AddressOutOfRange(u16),
}

/// The architectural state of a processor.
pub struct CpuState {
    pub pc: int,
    pub i: int,
    pub regs: Seq<u8>,
}

/// The state of a freshly built processor.
pub open spec fn initial_state() -> CpuState {
    CpuState { pc: START as int, i: 0, regs: Seq::new(16, |_j: int| 0u8) }
}

/// The first address outside memory of an access that begins at `start`
/// and does not fit.
pub open spec fn outside_from(start: int) -> int {
    if start < MEMORY_SIZE {
        MEMORY_SIZE as int
    } else {
        start
    }
}

/// The word fetched at `pc`: the byte at `pc` is its low half, the next
/// byte its high half.
pub open spec fn word_at(mem: Seq<u8>, pc: int) -> u16 {
    (mem[pc + 1] * 0x100 + mem[pc]) as u16
}

/// The low eight bits of `a`.
pub open spec fn wrap8(a: int) -> u8 {
    (a % 0x100) as u8
}

/// A byte read as a two's-complement signed value.
pub open spec fn signed(b: u8) -> int {
    if b < 0x80 {
        b as int
    } else {
        b - 0x100
    }
}

/// Moves past the instruction, and past one more when `skip` holds.
pub open spec fn advance(s: CpuState, skip: bool) -> CpuState {
    CpuState { pc: s.pc + if skip { 4int } else { 2int }, ..s }
}

/// `Vx := b`, then on to the next instruction.
pub open spec fn assign(s: CpuState, x: int, b: u8) -> CpuState {
    advance(CpuState { regs: s.regs.update(x, b), ..s }, false)
}

/// `8XY4`: `VF` is set to the carry of `Vx + Vy`, then `Vx` to the sum's low
/// byte.
pub open spec fn add_with_carry(s: CpuState, x: int, y: int) -> CpuState {
    let sum = s.regs[x] + s.regs[y];
    let flagged = s.regs.update(CARRY_FLAG as int, if sum > 0xFF { 1u8 } else { 0u8 });
    advance(CpuState { regs: flagged.update(x, wrap8(sum)), ..s }, false)
}

/// `Vx := a - b` in the signed 8-bit domain, then `VF` is set to
/// `if_negative` when that difference is negative and to `1 - if_negative`
/// otherwise.
pub open spec fn subtract(s: CpuState, x: int, a: u8, b: u8, if_negative: u8) -> CpuState {
    let diff = wrap8(a - b);
    let flag = if signed(diff) < 0 { if_negative } else { (1 - if_negative) as u8 };
    advance(CpuState { regs: s.regs.update(x, diff).update(CARRY_FLAG as int, flag), ..s }, false)
}

/// Sets the program counter to `target`.
pub open spec fn jump(s: CpuState, target: int) -> CpuState {
    CpuState { pc: target, ..s }
}

/// Memory after `regs[0..=x]` is stored from address `at` on.
pub open spec fn stored(mem: Seq<u8>, at: int, regs: Seq<u8>, x: int) -> Seq<u8> {
    Seq::new(mem.len(), |a: int| if at <= a <= at + x { regs[a - at] } else { mem[a] })
}

/// Registers after `V0..=Vx` are loaded from address `at` on.
pub open spec fn loaded(regs: Seq<u8>, mem: Seq<u8>, at: int, x: int) -> Seq<u8> {
    Seq::new(regs.len(), |j: int| if j <= x { mem[at + j] } else { regs[j] })
}

/// Whether a block of `x + 1` bytes from `I` lies inside memory.
pub open spec fn block_fits(s: CpuState, x: int) -> bool {
    s.i + x + 1 <= MEMORY_SIZE
}

/// Whether an operation is defined for word `w`.
pub open spec fn is_known(w: u16) -> bool {
    let op = op_of(w);
    let y = y_of(w);
    let n = n_of(w);
    ||| op == 0x1 || op == 0x3 || op == 0x4 || op == 0x5 || op == 0x6 || op == 0x7
    ||| op == 0x8 && (0x0 <= n <= 0x5 || n == 0x7)
    ||| op == 0x9 && n == 0x0
    ||| op == 0xA || op == 0xB
    ||| op == 0xF && (y == 0x1 && n == 0xE || y == 0x5 && n == 0x5 || y == 0x6 && n == 0x5)
}

/// What executing word `w` does to state `s` and memory `mem`.
pub open spec fn apply(s: CpuState, mem: Seq<u8>, w: u16) -> Result<(CpuState, Seq<u8>), ExecError> {
    let op = op_of(w);
    let x = x_of(w);
    let y = y_of(w);
    let n = n_of(w);
    let nn = nn_of(w);
    let vx = s.regs[x];
    let vy = s.regs[y];
    if !is_known(w) {
        Err(ExecError::UnknownInstruction(w))
    } else if op == 0xF && n == 0x5 && !block_fits(s, x) {
        Err(ExecError::AddressOutOfRange(outside_from(s.i) as u16))
    } else if op == 0xF && y == 0x5 {
        Ok((advance(CpuState { i: s.i + x + 1, ..s }, false), stored(mem, s.i, s.regs, x)))
    } else {
        Ok(
            (
                if op == 0x1 {
                    jump(s, START + nnn_of(w))
                } else if op == 0x3 {
                    advance(s, vx == nn)
                } else if op == 0x4 {
                    advance(s, vx != nn)
                } else if op == 0x5 {
                    advance(s, vx == vy)
                } else if op == 0x6 {
                    assign(s, x, nn as u8)
                } else if op == 0x7 {
                    assign(s, x, wrap8(vx + nn))
                } else if op == 0x8 && n == 0x0 {
                    assign(s, x, vy)
                } else if op == 0x8 && n == 0x1 {
                    assign(s, x, vx | vy)
                } else if op == 0x8 && n == 0x2 {
                    assign(s, x, vx & vy)
                } else if op == 0x8 && n == 0x3 {
                    assign(s, x, vx ^ vy)
                } else if op == 0x8 && n == 0x4 {
                    add_with_carry(s, x, y)
                } else if op == 0x8 && n == 0x5 {
                    subtract(s, x, vx, vy, 1)
                } else if op == 0x8 {
                    subtract(s, x, vy, vx, 0)
                } else if op == 0x9 {
                    advance(s, vx != vy)
                } else if op == 0xA {
                    advance(CpuState { i: nnn_of(w), ..s }, false)
                } else if op == 0xB {
                    jump(s, START + nnn_of(w) + s.regs[0])
                } else if y == 0x1 {
                    advance(CpuState { i: (s.i + vx) % 0x10000, ..s }, false)
                } else {
                    advance(CpuState { i: s.i + x + 1, regs: loaded(s.regs, mem, s.i, x), ..s }, false)
                },
                mem,
            ),
        )
    }
}

/// One fetch-decode-execute cycle from state `s` over memory `mem`.
pub open spec fn step(s: CpuState, mem: Seq<u8>) -> Result<(CpuState, Seq<u8>), ExecError> {
    if s.pc + 1 >= MEMORY_SIZE {
        Err(ExecError::AddressOutOfRange(outside_from(s.pc) as u16))
    } else {
        apply(s, mem, word_at(mem, s.pc))
    }
}

/// A word for which no operation is defined stops the cycle with the
/// unknown-instruction error, which carries that word.
pub proof fn lemma_unknown_word_fails(s: CpuState, mem: Seq<u8>)
    requires
        s.pc + 1 < MEMORY_SIZE,
        !is_known(word_at(mem, s.pc)),
    ensures
        step(s, mem) == Err::<(CpuState, Seq<u8>), ExecError>(
            ExecError::UnknownInstruction(word_at(mem, s.pc)),
        ),
{
}

/// The processor: program counter, index register and sixteen byte registers.
pub struct Cpu {
    pc: u16,
    i: u16,
    reg_vx: [u8; 16],
}

impl View for Cpu {
    type V = CpuState;

    closed spec fn view(&self) -> CpuState {
        CpuState { pc: self.pc as int, i: self.i as int, regs: self.reg_vx@ }
    }
}

impl Cpu {
    /// The program counter and the index register are sixteen-bit values,
    /// and there are always sixteen registers.
    pub proof fn lemma_bounds(&self)
        ensures
            0 <= self@.pc < 0x10000,
            0 <= self@.i < 0x10000,
            self@.regs.len() == 16,
    {
    }
}

/// The first address outside memory of an access that begins at `start`.
fn first_outside(start: u16) -> (r: u16)
    ensures
        r == outside_from(start as int),
{
    if (start as usize) < MEMORY_SIZE {
        MEMORY_SIZE as u16
    } else {
        start
    }
}

impl Cpu {
    pub fn new() -> (r: Cpu)
        ensures
            r@ == initial_state(),
    {
        let r = Cpu { pc: START, i: 0, reg_vx: [0u8; 16] };
        assert(r@.regs =~= initial_state().regs);
        r
    }

    fn write_on_vx(&mut self, instruction: &Instruction)
        requires
            old(self).pc + 1 < MEMORY_SIZE,
        ensures
            final(self)@ == assign(old(self)@, x_of(instruction@), nn_of(instruction@) as u8),
    {
        let x = instruction.x() as usize;
        self.reg_vx[x] = instruction.nn();
        self.pc += 2;
    }

    fn skip_on_vx_equal_vy(&mut self, instruction: &Instruction)
        requires
            old(self).pc + 1 < MEMORY_SIZE,
        ensures
            final(self)@ == advance(
                old(self)@,
                old(self)@.regs[x_of(instruction@)] == old(self)@.regs[y_of(instruction@)],
            ),
    {
        let x = instruction.x() as usize;
        let y = instruction.y() as usize;
        if self.reg_vx[x] == self.reg_vx[y] {
            self.pc += 2;
        }
        self.pc += 2;
    }

    fn skip_on_vx_not_equal_vy(&mut self, instruction: &Instruction)
        requires
            old(self).pc + 1 < MEMORY_SIZE,
        ensures
            final(self)@ == advance(
                old(self)@,
                old(self)@.regs[x_of(instruction@)] != old(self)@.regs[y_of(instruction@)],
            ),
    {
        let x = instruction.x() as usize;
        let y = instruction.y() as usize;
        if self.reg_vx[x] != self.reg_vx[y] {
            self.pc += 2;
        }
        self.pc += 2;
    }

    fn skip_on_vx_not_equal_nn(&mut self, instruction: &Instruction)
        requires
            old(self).pc + 1 < MEMORY_SIZE,
        ensures
            final(self)@ == advance(
                old(self)@,
                old(self)@.regs[x_of(instruction@)] != nn_of(instruction@),
            ),
    {
        let x = instruction.x() as usize;
        if self.reg_vx[x] != instruction.nn() {
            self.pc += 2;
        }
        self.pc += 2;
    }

    fn skip_on_vx_equal_nn(&mut self, instruction: &Instruction)
        requires
            old(self).pc + 1 < MEMORY_SIZE,
        ensures
            final(self)@ == advance(
                old(self)@,
                old(self)@.regs[x_of(instruction@)] == nn_of(instruction@),
            ),
    {
        let x = instruction.x() as usize;
        if self.reg_vx[x] == instruction.nn() {
            self.pc += 2;
        }
        self.pc += 2;
    }

    fn add_on_vx(&mut self, instruction: &Instruction)
        requires
            old(self).pc + 1 < MEMORY_SIZE,
        ensures
            final(self)@ == assign(
                old(self)@,
                x_of(instruction@),
                wrap8(old(self)@.regs[x_of(instruction@)] + nn_of(instruction@)),
            ),
    {
        let x = instruction.x() as usize;
        self.reg_vx[x] = self.reg_vx[x].wrapping_add(instruction.nn());
        self.pc += 2;
    }

    fn assign_vx_to_vy(&mut self, instruction: &Instruction)
        requires
            old(self).pc + 1 < MEMORY_SIZE,
        ensures
            final(self)@ == assign(
                old(self)@,
                x_of(instruction@),
                old(self)@.regs[y_of(instruction@)],
            ),
    {
        let x = instruction.x() as usize;
        let y = instruction.y() as usize;
        self.reg_vx[x] = self.reg_vx[y];
        self.pc += 2;
    }

    fn bitwise_or(&mut self, instruction: &Instruction)
        requires
            old(self).pc + 1 < MEMORY_SIZE,
        ensures
            final(self)@ == assign(
                old(self)@,
                x_of(instruction@),
                old(self)@.regs[x_of(instruction@)] | old(self)@.regs[y_of(instruction@)],
            ),
    {
        let x = instruction.x() as usize;
        let y = instruction.y() as usize;
        self.reg_vx[x] = self.reg_vx[x] | self.reg_vx[y];
        self.pc += 2;
    }

    fn bitwise_and(&mut self, instruction: &Instruction)
        requires
            old(self).pc + 1 < MEMORY_SIZE,
        ensures
            final(self)@ == assign(
                old(self)@,
                x_of(instruction@),
                old(self)@.regs[x_of(instruction@)] & old(self)@.regs[y_of(instruction@)],
            ),
    {
        let x = instruction.x() as usize;
        let y = instruction.y() as usize;
        self.reg_vx[x] = self.reg_vx[x] & self.reg_vx[y];
        self.pc += 2;
    }

    fn bitwise_xor(&mut self, instruction: &Instruction)
        requires
            old(self).pc + 1 < MEMORY_SIZE,
        ensures
            final(self)@ == assign(
                old(self)@,
                x_of(instruction@),
                old(self)@.regs[x_of(instruction@)] ^ old(self)@.regs[y_of(instruction@)],
            ),
    {
        let x = instruction.x() as usize;
        let y = instruction.y() as usize;
        self.reg_vx[x] = self.reg_vx[x] ^ self.reg_vx[y];
        self.pc += 2;
    }

    fn adds_vy_to_vx(&mut self, instruction: &Instruction)
        requires
            old(self).pc + 1 < MEMORY_SIZE,
        ensures
            final(self)@ == add_with_carry(old(self)@, x_of(instruction@), y_of(instruction@)),
    {
        let x = instruction.x() as usize;
        let y = instruction.y() as usize;
        let sum: u16 = self.reg_vx[x] as u16 + self.reg_vx[y] as u16;
        self.reg_vx[CARRY_FLAG] = if sum > 0xFF { 0x1 } else { 0x0 };
        self.reg_vx[x] = (sum & 0xFF) as u8;
        assert(sum & 0xFF == sum % 0x100) by (bit_vector);
        self.pc += 2;
    }

    fn subtracts_vy_to_vx(&mut self, instruction: &Instruction)
        requires
            old(self).pc + 1 < MEMORY_SIZE,
        ensures
            final(self)@ == subtract(
                old(self)@,
                x_of(instruction@),
                old(self)@.regs[x_of(instruction@)],
                old(self)@.regs[y_of(instruction@)],
                1,
            ),
    {
        let x = instruction.x() as usize;
        let y = instruction.y() as usize;
        let subtract = self.reg_vx[x].wrapping_sub(self.reg_vx[y]);
        self.reg_vx[x] = subtract;
        self.reg_vx[CARRY_FLAG] = if subtract >= 0x80 { 0x1 } else { 0x0 };
        self.pc += 2;
    }

    fn subtracts_vx_to_vy(&mut self, instruction: &Instruction)
        requires
            old(self).pc + 1 < MEMORY_SIZE,
        ensures
            final(self)@ == subtract(
                old(self)@,
                x_of(instruction@),
                old(self)@.regs[y_of(instruction@)],
                old(self)@.regs[x_of(instruction@)],
                0,
            ),
    {
        let x = instruction.x() as usize;
        let y = instruction.y() as usize;
        let subtract = self.reg_vx[y].wrapping_sub(self.reg_vx[x]);
        self.reg_vx[x] = subtract;
        self.reg_vx[CARRY_FLAG] = if subtract >= 0x80 { 0x0 } else { 0x1 };
        self.pc += 2;
    }

    fn jump_to_address_nnn_plus_v0(&mut self, instruction: &Instruction)
        ensures
            final(self)@ == jump(old(self)@, START + nnn_of(instruction@) + old(self)@.regs[0]),
    {
        self.pc = START + instruction.nnn() + self.reg_vx[0] as u16;
    }

    fn jump_to_address_nnn(&mut self, instruction: &Instruction)
        ensures
            final(self)@ == jump(old(self)@, START + nnn_of(instruction@)),
    {
        self.pc = START + instruction.nnn();
    }

    /// `I := I + Vx`, wrapping at sixteen bits, then on to the next
    /// instruction.
    fn adds_vx_to_i(&mut self, instruction: &Instruction)
        requires
            old(self).pc + 1 < MEMORY_SIZE,
        ensures
            final(self)@ == advance(
                CpuState {
                    i: (old(self)@.i + old(self)@.regs[x_of(instruction@)]) % 0x10000,
                    ..old(self)@
                },
                false,
            ),
    {
        self.i = self.i.wrapping_add(self.reg_vx[instruction.x() as usize] as u16);
        self.pc += 2;
    }

    /// Stores `V0` to `Vx`, `Vx` included, in memory from address `I` on;
    /// `I` moves one past each byte written.
    fn load_from_vx_to_mem(&mut self, ram: &mut Ram, instruction: &Instruction)
        requires
            old(self).pc + 1 < MEMORY_SIZE,
            block_fits(old(self)@, x_of(instruction@)),
        ensures
            final(self)@ == advance(
                CpuState { i: old(self)@.i + x_of(instruction@) + 1, ..old(self)@ },
                false,
            ),
            final(ram)@ == stored(old(ram)@, old(self)@.i, old(self)@.regs, x_of(instruction@)),
    {
        let x_usize = instruction.x() as usize;
        let ghost start = self.i as int;
        let ghost mem = ram@;
        proof {
            ram.lemma_size();
        }
        for j in 0..(x_usize + 1)
            invariant
                x_usize == x_of(instruction@),
                start + x_usize + 1 <= MEMORY_SIZE,
                self.i == start + j,
                self.pc == old(self).pc,
                self.reg_vx == old(self).reg_vx,
                start == old(self).i,
                mem == old(ram)@,
                mem.len() == MEMORY_SIZE,
                ram@.len() == mem.len(),
                forall|a: int|
                    0 <= a < mem.len() ==> ram@[a] == (if start <= a < start + j {
                        self.reg_vx[a - start]
                    } else {
                        mem[a]
                    }),
        {
            ram.write_bytes(self.i, self.reg_vx[j]);
            self.i += 1;
        }
        self.pc += 2;
        assert(ram@ =~= stored(mem, start, old(self)@.regs, x_of(instruction@)));
    }

    /// Loads `V0` to `Vx`, `Vx` included, from memory from address `I` on;
    /// `I` moves one past each byte read.
    fn load_to_mem_from_vx(&mut self, ram: &Ram, instruction: &Instruction)
        requires
            old(self).pc + 1 < MEMORY_SIZE,
            block_fits(old(self)@, x_of(instruction@)),
        ensures
            final(self)@ == advance(
                CpuState {
                    i: old(self)@.i + x_of(instruction@) + 1,
                    regs: loaded(old(self)@.regs, ram@, old(self)@.i, x_of(instruction@)),
                    ..old(self)@
                },
                false,
            ),
    {
        let x_usize = instruction.x() as usize;
        let ghost start = self.i as int;
        for j in 0..(x_usize + 1)
            invariant
                x_usize == x_of(instruction@),
                start + x_usize + 1 <= MEMORY_SIZE,
                self.i == start + j,
                self.pc == old(self).pc,
                start == old(self).i,
                forall|k: int|
                    0 <= k < 16 ==> self.reg_vx[k] == (if k < j {
                        ram@[start + k]
                    } else {
                        old(self).reg_vx[k]
                    }),
        {
            self.reg_vx[j] = ram.read_bytes(self.i);
            self.i += 1;
        }
        self.pc += 2;
        assert(self@.regs =~= loaded(old(self)@.regs, ram@, start, x_of(instruction@)));
    }

    /// The value of register `Vx`.
    pub fn read_vx(&mut self, x: usize) -> (r: u8)
        requires
            x < 16,
        ensures
            r == old(self)@.regs[x as int],
            *final(self) == *old(self),
    {
        self.reg_vx[x]
    }

    /// The value of the index register.
    pub fn read_i(&mut self) -> (r: u16)
        ensures
            r == old(self)@.i,
            *final(self) == *old(self),
    {
        self.i
    }

    /// `I := NNN`; nothing else changes.
    pub fn write_i(&mut self, instruction: &Instruction)
        ensures
            final(self)@ == (CpuState { i: nnn_of(instruction@), ..old(self)@ }),
    {
        self.i = instruction.nnn();
    }

    /// Runs one fetch-decode-execute cycle against `ram`: fetches the word
    /// at the program counter, decodes it and applies its operation. On an
    /// error neither the processor nor the memory changes.
    pub fn execute(&mut self, ram: &mut Ram) -> (r: Result<(), ExecError>)
        ensures
            step(old(self)@, old(ram)@) == (match r {
                Ok(_) => Ok((final(self)@, final(ram)@)),
                Err(e) => Err(e),
            }),
            r is Err ==> final(self)@ == old(self)@ && final(ram)@ == old(ram)@,
    {
        if self.pc as usize + 1 >= MEMORY_SIZE {
            return Err(ExecError::AddressOutOfRange(first_outside(self.pc)));
        }
        let lo = ram.read_bytes(self.pc) as u16;
        let hi = ram.read_bytes(self.pc + 1) as u16;
        let raw: u16 = (hi << 8) | lo;
        assert((hi << 8) | lo == hi * 0x100 + lo) by (bit_vector)
            requires
                hi < 0x100,
                lo < 0x100,
        ;
        let instruction = Instruction::new(raw);
        proof {
            crate::instruction::lemma_fields_reassemble(raw);
        }
        match (instruction.op(), instruction.x(), instruction.y(), instruction.n()) {
            (0x1, _, _, _) => self.jump_to_address_nnn(&instruction),
            (0x3, _, _, _) => self.skip_on_vx_equal_nn(&instruction),
            (0x4, _, _, _) => self.skip_on_vx_not_equal_nn(&instruction),
            (0x5, _, _, _) => self.skip_on_vx_equal_vy(&instruction),
            (0x6, _, _, _) => self.write_on_vx(&instruction),
            (0x7, _, _, _) => self.add_on_vx(&instruction),
            (0x8, _, _, 0x0) => self.assign_vx_to_vy(&instruction),
            (0x8, _, _, 0x1) => self.bitwise_or(&instruction),
            (0x8, _, _, 0x2) => self.bitwise_and(&instruction),
            (0x8, _, _, 0x3) => self.bitwise_xor(&instruction),
            (0x8, _, _, 0x4) => self.adds_vy_to_vx(&instruction),
            (0x8, _, _, 0x5) => self.subtracts_vy_to_vx(&instruction),
            (0x8, _, _, 0x7) => self.subtracts_vx_to_vy(&instruction),
            (0x9, _, _, 0x0) => self.skip_on_vx_not_equal_vy(&instruction),
            (0xA, _, _, _) => {
                self.write_i(&instruction);
                self.pc += 2;
            },
            (0xB, _, _, _) => self.jump_to_address_nnn_plus_v0(&instruction),
            (0xF, _, 0x1, 0xE) => self.adds_vx_to_i(&instruction),
            (0xF, x, 0x5, 0x5) => {
                if self.i as usize + x as usize + 1 > MEMORY_SIZE {
                    return Err(ExecError::AddressOutOfRange(first_outside(self.i)));
                }
                self.load_from_vx_to_mem(ram, &instruction);
            },
            (0xF, x, 0x6, 0x5) => {
                if self.i as usize + x as usize + 1 > MEMORY_SIZE {
                    return Err(ExecError::AddressOutOfRange(first_outside(self.i)));
                }
                self.load_to_mem_from_vx(ram, &instruction);
            },
            _ => return Err(ExecError::UnknownInstruction(raw)),
        }
        Ok(())
    }
}

} // verus!
