//! The console's main RAM as seen by the audio unit: little-endian 32-bit
//! reads and writes through the fixed main-memory window.
use vstd::prelude::*;

verus! {

/// Size of the main RAM window the audio unit can address.
pub const MAIN_RAM_SIZE: usize = 0x400000;

/// Start of the main-memory address region.
pub const MAIN_RAM_REGION_START: usize = 0x02000000;

/// End (exclusive) of the main-memory address region.
pub const MAIN_RAM_REGION_END: usize = 0x03000000;

/// Main RAM contents.
pub struct Nds {
    pub ram: Vec<u8>,
}

impl Nds {
    pub open spec fn wf(self) -> bool {
        self.ram.len() == MAIN_RAM_SIZE
    }

    /// Byte at a RAM offset, wrapping at the window size.
    pub open spec fn spec_byte(self, off: int) -> u8 {
        self.ram[off % (MAIN_RAM_SIZE as int)]
    }

    /// Little-endian word starting at the masked address.
    pub open spec fn spec_read32(self, address: int) -> u32 {
        (self.spec_byte(address) as u32
            + self.spec_byte(address + 1) as u32 * 0x100
            + self.spec_byte(address + 2) as u32 * 0x10000
            + self.spec_byte(address + 3) as u32 * 0x1000000) as u32
    }

    pub fn new(ram: Vec<u8>) -> (r: Nds)
        ensures
            r.ram == ram,
    {
        Nds { ram }
    }

    /// Reads the little-endian word at `address` from the main-RAM window.
    /// The address is reduced modulo the window size byte by byte, so a read
    /// near the window's end wraps around instead of running past it.
    pub fn arm7_read32(&self, address: usize) -> (r: u32)
        requires
            self.wf(),
            MAIN_RAM_REGION_START <= address < MAIN_RAM_REGION_END,
        ensures
            r == self.spec_read32(address as int),
    {
        let b0 = self.ram[address % MAIN_RAM_SIZE] as u32;
        let b1 = self.ram[(address + 1) % MAIN_RAM_SIZE] as u32;
        let b2 = self.ram[(address + 2) % MAIN_RAM_SIZE] as u32;
        let b3 = self.ram[(address + 3) % MAIN_RAM_SIZE] as u32;
        b0 + b1 * 0x100 + b2 * 0x10000 + b3 * 0x1000000
    }

    /// RAM contents after a 32-bit store of `val` at the word-aligned offset
    /// `off` (little-endian).
    pub open spec fn spec_write32(self, off: int, val: u32) -> Seq<u8> {
        self.ram@
            .update(off, (val % 0x100) as u8)
            .update(off + 1, ((val / 0x100) % 0x100) as u8)
            .update(off + 2, ((val / 0x10000) % 0x100) as u8)
            .update(off + 3, ((val / 0x1000000) % 0x100) as u8)
    }

    /// Stores `val` little-endian at `address`, aligned down to a word
    /// boundary and reduced to the main-RAM window.
    pub fn arm7_write32(&mut self, address: usize, val: u32)
        requires
            old(self).wf(),
            MAIN_RAM_REGION_START <= address < MAIN_RAM_REGION_END,
        ensures
            final(self).wf(),
            final(self).ram@ =~= old(self).spec_write32(
                ((address - address % 4) % (MAIN_RAM_SIZE as int)),
                val,
            ),
    {
        let a = address - address % 4;
        let off = a % MAIN_RAM_SIZE;
        let b0 = (val % 0x100) as u8;
        let b1 = ((val / 0x100) % 0x100) as u8;
        let b2 = ((val / 0x10000) % 0x100) as u8;
        let b3 = ((val / 0x1000000) % 0x100) as u8;
        proof {
            assert(off + 3 < MAIN_RAM_SIZE) by (nonlinear_arith)
                requires off == (address - address % 4) % (MAIN_RAM_SIZE as int)
                    && address >= 0;
        }
        self.ram.set(off, b0);
        self.ram.set(off + 1, b1);
        self.ram.set(off + 2, b2);
        self.ram.set(off + 3, b3);
    }
}

} // verus!
