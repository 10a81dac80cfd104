use vstd::prelude::*;

verus! {

/// The number of addressable cells.
pub const MEMORY_SIZE: usize = 0x10000;

/// The address of the reset vector, a little-endian word.
pub const RESET_VECTOR: u16 = 0xFFFC;

/// The address at which `load` places a program.
pub const PROGRAM_START: u16 = 0x8000;

/// The address that follows `a`, wrapping from 0xFFFF to 0x0000.
pub open spec fn next_address(a: u16) -> u16 {
    ((a as int + 1) % 0x10000) as u16
}

/// The little-endian word whose low byte is at `a` and high byte at the next address.
pub open spec fn word_at(m: Seq<u8>, a: u16) -> u16 {
    (m[a as int] as int + 256 * m[next_address(a) as int] as int) as u16
}

/// `m` with the little-endian word `v` stored at `a`.
pub open spec fn with_word(m: Seq<u8>, a: u16, v: u16) -> Seq<u8> {
    m.update(a as int, (v % 256) as u8).update(next_address(a) as int, (v / 256) as u8)
}

/// `m` with `image` copied to the cells from `base` on.
pub open spec fn with_image(m: Seq<u8>, base: int, image: Seq<u8>) -> Seq<u8> {
    Seq::new(
        m.len(),
        |i: int|
            if base <= i < base + image.len() {
                image[i - base]
            } else {
                m[i]
            },
    )
}

/// A flat 64 KiB byte store.
pub struct Memory {
    pub memory: Vec<u8>,
}

impl View for Memory {
    type V = Seq<u8>;

    open spec fn view(&self) -> Seq<u8> {
        self.memory@
    }
}

impl Default for Memory {
    fn default() -> (r: Memory)
        ensures
            r.wf(),
            forall|i: int| 0 <= i < MEMORY_SIZE ==> r@[i] == 0,
    {
        Memory::new()
    }
}

impl Memory {
    /// Every address from 0x0000 to 0xFFFF names a cell.
    pub open spec fn wf(&self) -> bool {
        self@.len() == MEMORY_SIZE
    }

    /// A memory with every cell zero.
    pub fn new() -> (r: Memory)
        ensures
            r.wf(),
            forall|i: int| 0 <= i < MEMORY_SIZE ==> r@[i] == 0,
    {
        let mut memory: Vec<u8> = Vec::with_capacity(MEMORY_SIZE);
        let mut i: usize = 0;
        while i < MEMORY_SIZE
            invariant
                i <= MEMORY_SIZE,
                memory@.len() == i,
                forall|j: int| 0 <= j < i ==> memory@[j] == 0,
            decreases MEMORY_SIZE - i,
        {
            memory.push(0);
            i = i + 1;
        }
        Memory { memory }
    }

    /// The byte at `address`.
    pub fn read_u8(&self, address: u16) -> (r: u8)
        requires
            self.wf(),
        ensures
            r == self@[address as int],
    {
        self.memory[address as usize]
    }

    /// Stores `data` at `address`.
    pub fn write_u8(&mut self, address: u16, data: u8)
        requires
            old(self).wf(),
        ensures
            final(self)@ == old(self)@.update(address as int, data),
            final(self).wf(),
    {
        self.memory.set(address as usize, data);
    }

    /// The little-endian word at `address`: low byte there, high byte at the next address.
    pub fn read_u16(&self, address: u16) -> (r: u16)
        requires
            self.wf(),
        ensures
            r == word_at(self@, address),
    {
        let low: u16 = self.read_u8(address) as u16;
        let high: u16 = self.read_u8(address.wrapping_add(1)) as u16;
        high * 256 + low
    }

    /// Stores `data` as a little-endian word: low byte at `address`, high byte at the next address.
    pub fn write_u16(&mut self, address: u16, data: u16)
        requires
            old(self).wf(),
        ensures
            final(self)@ == with_word(old(self)@, address, data),
            final(self).wf(),
    {
        self.write_u8(address, (data % 256) as u8);
        self.write_u8(address.wrapping_add(1), (data / 256) as u8);
    }

    /// Copies `program` to the cells from `base` on and points the reset vector at `base`.
    pub fn load_at(&mut self, program: &Vec<u8>, base: u16)
        requires
            old(self).wf(),
            base as int + program@.len() <= MEMORY_SIZE,
        ensures
            final(self)@ == with_word(with_image(old(self)@, base as int, program@), RESET_VECTOR, base),
            final(self).wf(),
    {
        let mut i: usize = 0;
        while i < program.len()
            invariant
                self.wf(),
                base as int + program@.len() <= MEMORY_SIZE,
                i <= program@.len(),
                self@ == with_image(old(self)@, base as int, program@.subrange(0, i as int)),
            decreases program@.len() - i,
        {
            self.write_u8((base as usize + i) as u16, program[i]);
            i = i + 1;
            assert(self@ =~= with_image(old(self)@, base as int, program@.subrange(0, i as int)));
        }
        assert(program@.subrange(0, i as int) =~= program@);
        self.write_u16(RESET_VECTOR, base);
    }

    /// Copies `program` to the cells from 0x8000 on and points the reset vector there.
    pub fn load(&mut self, program: Vec<u8>)
        requires
            old(self).wf(),
            program@.len() <= MEMORY_SIZE - PROGRAM_START,
        ensures
            final(self)@ == with_word(
                with_image(old(self)@, PROGRAM_START as int, program@),
                RESET_VECTOR,
                PROGRAM_START,
            ),
            final(self).wf(),
    {
        self.load_at(&program, PROGRAM_START);
    }
}

/// Writing a word and reading it back at the same address gives the word.
pub proof fn lemma_word_round_trip(m: Seq<u8>, a: u16, v: u16)
    requires
        m.len() == MEMORY_SIZE,
    ensures
        word_at(with_word(m, a, v), a) == v,
{
}

} // verus!
