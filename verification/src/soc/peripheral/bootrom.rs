//! The 256-byte start-up program that overlays the bottom of the address
//! space until it is switched off.

use vstd::prelude::*;

verus! {

pub const BOOT_ROM_LENGTH: usize = 256;

/// The start-up program and its latch as plain values.
pub struct BootRomView {
    pub data: Seq<u8>,
    /// The program is mapped over the first 256 bytes of the cartridge.
    pub enabled: bool,
}

/// The start-up program and the latch that maps it. Every value of the two
/// fields is a legal state.
pub struct BootRom {
    pub data: [u8; 256],
    /// The program is mapped over the first 256 bytes of the cartridge.
    pub enabled: bool,
}

impl BootRom {
    pub open spec fn view(&self) -> BootRomView {
        BootRomView { data: self.data@, enabled: self.enabled }
    }

    /// An empty program, mapped.
    pub fn new() -> (boot_rom: BootRom)
        ensures
            boot_rom@ == (BootRomView { data: Seq::new(256, |i: int| 0u8), enabled: true }),
    {
        let boot_rom = BootRom { data: [0; 256], enabled: true };
        assert(boot_rom@.data =~= Seq::new(256, |i: int| 0u8));
        boot_rom
    }

    /// Copies the program in; the latch is left as it is.
    pub fn load(&mut self, image: &[u8])
        requires
            image@.len() == 256,
        ensures
            final(self)@ == (BootRomView { data: image@, ..old(self)@ }),
    {
        let mut i: usize = 0;
        while i < 256
            invariant
                i <= 256,
                image@.len() == 256,
                self.enabled == old(self).enabled,
                forall|j: int| 0 <= j < i ==> self.data[j] == image@[j],
            decreases 256 - i,
        {
            self.data[i] = image[i];
            i += 1;
        }
        assert(self.data@ =~= image@);
    }

    pub fn get_state(&self) -> (enabled: bool)
        ensures
            enabled == self.enabled,
    {
        self.enabled
    }

    /// Unmaps the program.
    pub fn disable(&mut self)
        ensures
            final(self)@ == (BootRomView { enabled: false, ..old(self)@ }),
    {
        self.enabled = false;
    }

    pub fn read(&self, address: u16) -> (data: u8)
        requires
            address < 256,
        ensures
            data == self@.data[address as int],
    {
        self.data[address as usize]
    }
}

} // verus!
