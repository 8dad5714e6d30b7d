//! The game cartridge as the bus sees it. Only cartridges without a memory
//! bank controller are modelled: 32 KiB of ROM, no external RAM.

use vstd::prelude::*;

verus! {

/// Header offset of the byte that names the memory bank controller.
pub const CARTRIDGE_TYPE_OFFSET: u16 = 0x0147;

/// Header offset of the ROM size code.
pub const CARTRIDGE_ROM_SIZE_OFFSET: u16 = 0x0148;

/// Header offset of the external RAM size code.
pub const CARTRIDGE_RAM_SIZE_OFFSET: u16 = 0x0149;

/// Header value of a cartridge without a memory bank controller.
pub const CARTRIDGE_TYPE_ROM_ONLY: u8 = 0x00;

/// Bytes of ROM that the bus can address without bank switching.
pub const CARTRIDGE_ROM_LENGTH: usize = 0x8000;

/// What an unmapped external RAM reads as.
pub const OPEN_BUS: u8 = 0xFF;

/// The image is large enough to fill both ROM banks.
pub open spec fn image_fills_banks(image: Seq<u8>) -> bool {
    image.len() >= 0x8000
}

/// The header of the image names no memory bank controller.
pub open spec fn image_is_rom_only(image: Seq<u8>) -> bool {
    image[0x0147] == 0x00
}

/// The image can be put on the bus.
pub open spec fn image_supported(image: Seq<u8>) -> bool {
    image_fills_banks(image) && image_is_rom_only(image)
}

/// A cartridge without a memory bank controller. Every value of the field
/// is a legal state.
pub struct Cartridge {
    pub rom: [u8; 0x8000],
}

impl Cartridge {
    /// Takes the first 32 KiB of `image` as the two ROM banks.
    pub fn new(image: &[u8]) -> (cartridge: Cartridge)
        requires
            image_supported(image@),
        ensures
            cartridge.rom@ == image@.subrange(0, 0x8000),
    {
        let mut rom: [u8; 0x8000] = [0; 0x8000];
        let mut i: usize = 0;
        while i < 0x8000
            invariant
                i <= 0x8000,
                image@.len() >= 0x8000,
                forall|j: int| 0 <= j < i ==> rom[j] == image@[j],
            decreases 0x8000 - i,
        {
            rom[i] = image[i];
            i += 1;
        }
        assert(rom@ =~= image@.subrange(0, 0x8000));
        Cartridge { rom }
    }

    /// Reads the fixed bank, mapped at `0x0000..=0x3FFF`.
    pub fn read_bank_0(&self, address: usize) -> (data: u8)
        requires
            address < 0x4000,
        ensures
            data == self.rom[address as int],
    {
        self.rom[address]
    }

    /// Reads the upper bank, mapped at `0x4000..=0x7FFF`.
    pub fn read_bank_n(&self, address: usize) -> (data: u8)
        requires
            0x4000 <= address < 0x8000,
        ensures
            data == self.rom[address as int],
    {
        self.rom[address]
    }

    /// Reads external RAM: there is none, the bus floats high.
    pub fn read_ram(&self, address: usize) -> (data: u8)
        ensures
            data == 0xFF,
    {
        OPEN_BUS
    }

    /// A write into the fixed bank: there is no controller to take it.
    pub fn write_bank_0(&mut self, address: usize, data: u8)
        ensures
            *final(self) == *old(self),
    {
    }

    /// A write into the upper bank: there is no controller to take it.
    pub fn write_bank_n(&mut self, address: usize, data: u8)
        ensures
            *final(self) == *old(self),
    {
    }

    /// A write into external RAM: there is none.
    pub fn write_ram(&mut self, address: usize, data: u8)
        ensures
            *final(self) == *old(self),
    {
    }

    /// Lets `cycles` machine cycles pass: the cartridge keeps no time.
    pub fn run(&mut self, cycles: u8)
        ensures
            *final(self) == *old(self),
    {
    }
}

} // verus!
