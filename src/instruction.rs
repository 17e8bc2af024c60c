use vstd::prelude::*;
use vstd::arithmetic::div_mod::lemma_fundamental_div_mod_converse;

verus! {

/// The primary opcode: the top hexadecimal digit of a word.
pub open spec fn op_of(w: u16) -> int {
    w as int / 0x1000
}

/// The register index `x`: the second hexadecimal digit of a word.
pub open spec fn x_of(w: u16) -> int {
    (w as int / 0x100) % 0x10
}

/// The register index `y`: the third hexadecimal digit of a word.
pub open spec fn y_of(w: u16) -> int {
    (w as int / 0x10) % 0x10
}

/// The low nibble `n`: the last hexadecimal digit of a word.
pub open spec fn n_of(w: u16) -> int {
    w as int % 0x10
}

/// The 8-bit immediate `nn`: the last two hexadecimal digits of a word.
pub open spec fn nn_of(w: u16) -> int {
    w as int % 0x100
}

/// The 12-bit address `nnn`: the last three hexadecimal digits of a word.
pub open spec fn nnn_of(w: u16) -> int {
    w as int % 0x1000
}

/// A read-only view over one raw 16-bit instruction word.
#[derive(Clone, Copy)]
pub struct Instruction {
    raw: u16,
}

impl View for Instruction {
    type V = u16;

    closed spec fn view(&self) -> u16 {
        self.raw
    }
}

impl Instruction {
    pub fn new(raw: u16) -> (r: Instruction)
        ensures
            r@ == raw,
    {
        Instruction { raw }
    }

    pub fn raw(self) -> (r: u16)
        ensures
            r == self@,
    {
        self.raw as u16
    }

    pub fn op(&self) -> (r: u8)
        ensures
            r == op_of(self@),
    {
        let w = self.raw;
        assert((w & 0xF000) >> 12 == w / 0x1000) by (bit_vector);
        ((w & 0xF000) >> 12) as u8
    }

    pub fn x(&self) -> (r: u8)
        ensures
            r == x_of(self@),
    {
        let w = self.raw;
        assert((w & 0x0F00) >> 8 == (w / 0x100) % 0x10) by (bit_vector);
        ((w & 0x0F00) >> 8) as u8
    }

    pub fn y(&self) -> (r: u8)
        ensures
            r == y_of(self@),
    {
        let w = self.raw;
        assert((w & 0x00F0) >> 4 == (w / 0x10) % 0x10) by (bit_vector);
        ((w & 0x00F0) >> 4) as u8
    }

    pub fn nnn(&self) -> (r: u16)
        ensures
            r == nnn_of(self@),
    {
        let w = self.raw;
        assert(w & 0x0FFF == w % 0x1000) by (bit_vector);
        (w & 0x0FFF) as u16
    }

    pub fn nn(&self) -> (r: u8)
        ensures
            r == nn_of(self@),
    {
        let w = self.raw;
        assert(w & 0x00FF == w % 0x100) by (bit_vector);
        (w & 0x00FF) as u8
    }

    pub fn n(&self) -> (r: u16)
        ensures
            r == n_of(self@),
    {
        let w = self.raw;
        assert(w & 0x000F == w % 0x10) by (bit_vector);
        (w & 0x000F) as u16
    }
}

/// Decoding loses nothing: a word is rebuilt from its opcode and its `x`, `y`
/// and `n` fields, each a hexadecimal digit, and the wider immediates `nn` and
/// `nnn` are the digits below their place.
pub proof fn lemma_fields_reassemble(w: u16)
    ensures
        0 <= op_of(w) < 0x10,
        0 <= x_of(w) < 0x10,
        0 <= y_of(w) < 0x10,
        0 <= n_of(w) < 0x10,
        w == op_of(w) * 0x1000 + x_of(w) * 0x100 + y_of(w) * 0x10 + n_of(w),
        nn_of(w) == y_of(w) * 0x10 + n_of(w),
        nnn_of(w) == x_of(w) * 0x100 + nn_of(w),
{
}

/// Each field reads back the hexadecimal digit that a word was built from.
pub proof fn lemma_fields_of_digits(d3: int, d2: int, d1: int, d0: int)
    requires
        0 <= d3 < 0x10,
        0 <= d2 < 0x10,
        0 <= d1 < 0x10,
        0 <= d0 < 0x10,
    ensures
        ({
            let w = (d3 * 0x1000 + d2 * 0x100 + d1 * 0x10 + d0) as u16;
            &&& w == d3 * 0x1000 + d2 * 0x100 + d1 * 0x10 + d0
            &&& op_of(w) == d3
            &&& x_of(w) == d2
            &&& y_of(w) == d1
            &&& n_of(w) == d0
        }),
{
    let v = d3 * 0x1000 + d2 * 0x100 + d1 * 0x10 + d0;
    lemma_fundamental_div_mod_converse(v, 0x1000, d3, d2 * 0x100 + d1 * 0x10 + d0);
    lemma_fundamental_div_mod_converse(v, 0x100, d3 * 0x10 + d2, d1 * 0x10 + d0);
    lemma_fundamental_div_mod_converse(d3 * 0x10 + d2, 0x10, d3, d2);
    lemma_fundamental_div_mod_converse(v, 0x10, d3 * 0x100 + d2 * 0x10 + d1, d0);
    lemma_fundamental_div_mod_converse(d3 * 0x100 + d2 * 0x10 + d1, 0x10, d3 * 0x10 + d2, d1);
}

} // verus!
