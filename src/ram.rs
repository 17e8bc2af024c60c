use vstd::prelude::*;

verus! {

/// Number of addressable bytes.
pub const MEMORY_SIZE: usize = 3584;

/// The five rows of the built-in glyph for hexadecimal digit `d`.
pub open spec fn glyph(d: int) -> Seq<u8> {
    if d == 0x0 {
        seq![0xF0, 0x90, 0x90, 0x90, 0xF0]
    } else if d == 0x1 {
        seq![0x20, 0x60, 0x20, 0x20, 0x70]
    } else if d == 0x2 {
        seq![0xF0, 0x10, 0xF0, 0x80, 0xF0]
    } else if d == 0x3 {
        seq![0xF0, 0x10, 0xF0, 0x10, 0xF0]
    } else if d == 0x4 {
        seq![0x90, 0x90, 0xF0, 0x10, 0x10]
    } else if d == 0x5 {
        seq![0xF0, 0x80, 0xF0, 0x10, 0xF0]
    } else if d == 0x6 {
        seq![0xF0, 0x80, 0xF0, 0x90, 0xF0]
    } else if d == 0x7 {
        seq![0xF0, 0x10, 0x20, 0x40, 0x40]
    } else if d == 0x8 {
        seq![0xF0, 0x90, 0xF0, 0x90, 0xF0]
    } else if d == 0x9 {
        seq![0xF0, 0x90, 0xF0, 0x10, 0xF0]
    } else if d == 0xA {
        seq![0xF0, 0x90, 0xF0, 0x90, 0x90]
    } else if d == 0xB {
        seq![0xE0, 0x90, 0xE0, 0x90, 0xE0]
    } else if d == 0xC {
        seq![0xF0, 0x80, 0x80, 0x80, 0xF0]
    } else if d == 0xD {
        seq![0xE0, 0x90, 0x90, 0x90, 0xE0]
    } else if d == 0xE {
        seq![0xF0, 0x80, 0xF0, 0x80, 0xF0]
    } else {
        seq![0xF0, 0x80, 0xF0, 0x80, 0x80]
    }
}

/// Memory filled with zeros.
pub open spec fn blank_memory() -> Seq<u8> {
    Seq::new(MEMORY_SIZE as nat, |_a: int| 0u8)
}

/// The machine's byte store, with the digit glyphs kept beside it.
pub struct Ram {
    main: [u8; MEMORY_SIZE],
    sprites: [[u8; 5]; 16],
}

impl View for Ram {
    type V = Seq<u8>;

    closed spec fn view(&self) -> Seq<u8> {
        self.main@
    }
}

impl Ram {
    #[verifier::type_invariant]
    spec fn inv(self) -> bool {
        forall|d: int| 0 <= d < 16 ==> (#[trigger] self.sprites[d])@ == glyph(d)
    }

    pub fn new() -> (r: Ram)
        ensures
            r@ == blank_memory(),
    {
        let memory = Ram { main: [0u8; MEMORY_SIZE], sprites: Ram::load_sprites() };
        assert(memory@ =~= blank_memory());
        memory
    }

    /// Memory always spans exactly `MEMORY_SIZE` bytes.
    pub proof fn lemma_size(&self)
        ensures
            self@.len() == MEMORY_SIZE,
    {
    }

    pub fn read_bytes(&self, address: u16) -> (r: u8)
        requires
            address < MEMORY_SIZE,
        ensures
            r == self@[address as int],
    {
        self.main[address as usize]
    }

    pub fn write_bytes(&mut self, address: u16, value: u8)
        requires
            address < MEMORY_SIZE,
        ensures
            final(self)@ == old(self)@.update(address as int, value),
    {
        proof {
            use_type_invariant(&*self);
        }
        self.main[address as usize] = value;
    }

    /// The rows of the glyph for hexadecimal digit `digit`.
    pub fn sprite(&self, digit: u8) -> (r: [u8; 5])
        requires
            digit < 16,
        ensures
            r@ == glyph(digit as int),
    {
        proof {
            use_type_invariant(self);
        }
        self.sprites[digit as usize]
    }

    fn load_sprites() -> (r: [[u8; 5]; 16])
        ensures
            forall|d: int| 0 <= d < 16 ==> (#[trigger] r[d])@ == glyph(d),
    {
        let r = [
            [0xF0, 0x90, 0x90, 0x90, 0xF0],
            [0x20, 0x60, 0x20, 0x20, 0x70],
            [0xF0, 0x10, 0xF0, 0x80, 0xF0],
            [0xF0, 0x10, 0xF0, 0x10, 0xF0],
            [0x90, 0x90, 0xF0, 0x10, 0x10],
            [0xF0, 0x80, 0xF0, 0x10, 0xF0],
            [0xF0, 0x80, 0xF0, 0x90, 0xF0],
            [0xF0, 0x10, 0x20, 0x40, 0x40],
            [0xF0, 0x90, 0xF0, 0x90, 0xF0],
            [0xF0, 0x90, 0xF0, 0x10, 0xF0],
            [0xF0, 0x90, 0xF0, 0x90, 0x90],
            [0xE0, 0x90, 0xE0, 0x90, 0xE0],
            [0xF0, 0x80, 0x80, 0x80, 0xF0],
            [0xE0, 0x90, 0x90, 0x90, 0xE0],
            [0xF0, 0x80, 0xF0, 0x80, 0xF0],
            [0xF0, 0x80, 0xF0, 0x80, 0x80],
        ];
        assert forall|d: int| 0 <= d < 16 implies (#[trigger] r[d])@ == glyph(d) by {
            assert(r[d]@ =~= glyph(d));
        }
        r
    }
}

} // verus!
