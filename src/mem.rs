//! The 4 KiB address space: a read-only reserved region holding the
//! hexadecimal font, followed by the writable program region.
use vstd::prelude::*;

verus! {

/// Total number of addressable bytes.
pub const MEM_SIZE: usize = 4096;

/// Size of the read-only region at the bottom of the address space.
pub const RESERVED_MEMORY_SIZE: usize = 512;

/// Size of the program region, which starts right after the reserved one.
pub const ROM_SIZE: usize = 3584;

/// Number of bytes in the built-in font (16 glyphs of 5 bytes).
pub const FONT_SIZE: usize = 80;

/// The built-in hexadecimal font, glyphs `0` to `F` in order.
pub open spec fn font_spec() -> Seq<u8> {
    seq![
        0xF0u8, 0x90, 0x90, 0x90, 0xF0, // 0
        0x20, 0x60, 0x20, 0x20, 0x70, // 1
        0xF0, 0x10, 0xF0, 0x80, 0xF0, // 2
        0xF0, 0x10, 0xF0, 0x10, 0xF0, // 3
        0x90, 0x90, 0xF0, 0x10, 0x10, // 4
        0xF0, 0x80, 0xF0, 0x10, 0xF0, // 5
        0xF0, 0x80, 0xF0, 0x90, 0xF0, // 6
        0xF0, 0x10, 0x20, 0x40, 0x40, // 7
        0xF0, 0x90, 0xF0, 0x90, 0xF0, // 8
        0xF0, 0x90, 0xF0, 0x10, 0xF0, // 9
        0xF0, 0x90, 0xF0, 0x90, 0x90, // A
        0xE0, 0x90, 0xE0, 0x90, 0xE0, // B
        0xF0, 0x80, 0x80, 0x80, 0xF0, // C
        0xE0, 0x90, 0x90, 0x90, 0xE0, // D
        0xF0, 0x80, 0xF0, 0x80, 0xF0, // E
        0xF0, 0x80, 0xF0, 0x80, 0x80, // F
    ]
}

/// The font as a vector.
fn font_data() -> (r: Vec<u8>)
    ensures
        r@ == font_spec(),
{
    let r: Vec<u8> = vec![
        0xF0u8, 0x90, 0x90, 0x90, 0xF0, // 0
        0x20, 0x60, 0x20, 0x20, 0x70, // 1
        0xF0, 0x10, 0xF0, 0x80, 0xF0, // 2
        0xF0, 0x10, 0xF0, 0x10, 0xF0, // 3
        0x90, 0x90, 0xF0, 0x10, 0x10, // 4
        0xF0, 0x80, 0xF0, 0x10, 0xF0, // 5
        0xF0, 0x80, 0xF0, 0x90, 0xF0, // 6
        0xF0, 0x10, 0x20, 0x40, 0x40, // 7
        0xF0, 0x90, 0xF0, 0x90, 0xF0, // 8
        0xF0, 0x90, 0xF0, 0x10, 0xF0, // 9
        0xF0, 0x90, 0xF0, 0x90, 0x90, // A
        0xE0, 0x90, 0xE0, 0x90, 0xE0, // B
        0xF0, 0x80, 0x80, 0x80, 0xF0, // C
        0xE0, 0x90, 0x90, 0x90, 0xE0, // D
        0xF0, 0x80, 0xF0, 0x80, 0xF0, // E
        0xF0, 0x80, 0xF0, 0x80, 0x80, // F
    ];
    assert(r@ =~= font_spec());
    r
}


/// The initial contents of the address space for a given program region:
/// the font, zeros up to the program region, then the program region.
pub open spec fn initial_memory(rom: Seq<u8>) -> Seq<u8> {
    font_spec() + Seq::new((RESERVED_MEMORY_SIZE - FONT_SIZE) as nat, |i: int| 0u8) + rom
}

/// Whether a write to `addr` is allowed: the program region only.
pub open spec fn writable(addr: int) -> bool {
    RESERVED_MEMORY_SIZE <= addr < MEM_SIZE
}

/// The big-endian word made of the bytes at `addr` and `addr + 1`.
pub open spec fn word_at(m: Seq<u8>, addr: int) -> u16 {
    (m[addr] as int * 256 + m[addr + 1] as int) as u16
}

/// A program region: exactly `ROM_SIZE` bytes, loaded at `RESERVED_MEMORY_SIZE`.
pub struct Rom {
    bytes: Vec<u8>,
}

impl View for Rom {
    type V = Seq<u8>;

    closed spec fn view(&self) -> Seq<u8> {
        self.bytes@
    }
}

impl Rom {
    pub open spec fn wf(&self) -> bool {
        self@.len() == ROM_SIZE
    }

    /// A program region holding exactly the given bytes.
    pub fn new(rom: [u8; ROM_SIZE]) -> (r: Rom)
        ensures
            r.wf(),
            r@ == rom@,
    {
        let mut bytes: Vec<u8> = Vec::new();
        let mut i: usize = 0;
        while i < ROM_SIZE
            invariant
                i <= ROM_SIZE,
                rom@.len() == ROM_SIZE,
                bytes@ == rom@.subrange(0, i as int),
            decreases ROM_SIZE - i,
        {
            bytes.push(rom[i]);
            i += 1;
            assert(bytes@ =~= rom@.subrange(0, i as int));
        }
        assert(bytes@ =~= rom@);
        Rom { bytes }
    }

    /// A program region holding `image` at its start and zeros after it.
    pub fn from_image(image: &Vec<u8>) -> (r: Rom)
        requires
            image@.len() <= ROM_SIZE,
        ensures
            r.wf(),
            r@ == image@ + Seq::new((ROM_SIZE - image@.len()) as nat, |i: int| 0u8),
    {
        let mut bytes: Vec<u8> = Vec::new();
        let mut i: usize = 0;
        while i < ROM_SIZE
            invariant
                i <= ROM_SIZE,
                image@.len() <= ROM_SIZE,
                bytes@.len() == i,
                forall|j: int| 0 <= j < i ==> bytes@[j] == if j < image@.len() { image@[j] } else { 0u8 },
            decreases ROM_SIZE - i,
        {
            if i < image.len() {
                bytes.push(image[i]);
            } else {
                bytes.push(0u8);
            }
            i += 1;
        }
        assert(bytes@ =~= image@ + Seq::new((ROM_SIZE - image@.len()) as nat, |i: int| 0u8));
        Rom { bytes }
    }
}

/// The whole address space as one flat buffer; writes below
/// `RESERVED_MEMORY_SIZE` are not allowed.
pub struct Memory {
    bytes: Vec<u8>,
}

impl View for Memory {
    type V = Seq<u8>;

    closed spec fn view(&self) -> Seq<u8> {
        self.bytes@
    }
}

impl Memory {
    pub open spec fn wf(&self) -> bool {
        self@.len() == MEM_SIZE
    }

    /// The address space with the font in the reserved region and `rom` in
    /// the program region.
    pub fn new(rom: Rom) -> (r: Memory)
        requires
            rom.wf(),
        ensures
            r.wf(),
            r@ == initial_memory(rom@),
    {
        let mut bytes = font_data();
        let mut i: usize = FONT_SIZE;
        while i < RESERVED_MEMORY_SIZE
            invariant
                FONT_SIZE <= i <= RESERVED_MEMORY_SIZE,
                bytes@ == font_spec() + Seq::new((i - FONT_SIZE) as nat, |j: int| 0u8),
            decreases RESERVED_MEMORY_SIZE - i,
        {
            bytes.push(0u8);
            i += 1;
            assert(bytes@ =~= font_spec() + Seq::new((i - FONT_SIZE) as nat, |j: int| 0u8));
        }
        let ghost prefix = bytes@;
        let mut k: usize = 0;
        while k < ROM_SIZE
            invariant
                k <= ROM_SIZE,
                rom.wf(),
                prefix.len() == RESERVED_MEMORY_SIZE,
                bytes@ == prefix + rom@.subrange(0, k as int),
            decreases ROM_SIZE - k,
        {
            bytes.push(rom.bytes[k]);
            k += 1;
            assert(bytes@ =~= prefix + rom@.subrange(0, k as int));
        }
        assert(rom@.subrange(0, ROM_SIZE as int) =~= rom@);
        Memory { bytes }
    }

    /// The byte at `addr`.
    pub fn read_byte(&self, addr: u16) -> (r: u8)
        requires
            self.wf(),
            addr < MEM_SIZE,
        ensures
            r == self@[addr as int],
    {
        self.bytes[addr as usize]
    }

    /// The big-endian word at `addr`: the byte at `addr` is the high one.
    pub fn read_word(&self, addr: u16) -> (r: u16)
        requires
            self.wf(),
            addr + 1 < MEM_SIZE,
        ensures
            r == word_at(self@, addr as int),
    {
        let hi = self.read_byte(addr) as u16;
        let lo = self.read_byte(addr + 1) as u16;
        hi * 256 + lo
    }

    /// Stores `value` at `addr`, which must lie in the program region.
    pub fn write_byte(&mut self, value: u8, addr: u16)
        requires
            old(self).wf(),
            writable(addr as int),
        ensures
            final(self).wf(),
            final(self)@ == old(self)@.update(addr as int, value),
    {
        self.bytes.set(addr as usize, value);
    }
}

} // verus!
