//! The bus as plain values: what a read of each address returns, what a
//! write changes, and what the passing of machine cycles does.

use vstd::prelude::*;
use crate::cartridge::Cartridge;
use crate::soc::nvic::{InterruptSources, Nvic};
use crate::soc::peripheral::bootrom::BootRomView;
use crate::soc::peripheral::dma::DmaView;
use crate::soc::peripheral::gpu::model::GpuView;
use crate::soc::peripheral::keypad::{Key, Keypad};
use crate::soc::peripheral::timer::Timer;

verus! {

/// The state of the bus and of everything on it, as plain values.
pub struct PeripheralView {
    pub boot_rom: BootRomView,
    pub cartridge: Cartridge,
    pub working_ram: Seq<u8>,
    pub zero_page: Seq<u8>,
    pub gpu: GpuView,
    pub nvic: Nvic,
    pub timer: Timer,
    pub keypad: Keypad,
    pub dma: DmaView,
}

/// The address names an I/O register that can be read.
pub open spec fn io_readable(address: int) -> bool {
    ||| address == 0xFF00
    ||| address == 0xFF01
    ||| address == 0xFF02
    ||| 0xFF04 <= address <= 0xFF07
    ||| address == 0xFF0F
    ||| 0xFF10 <= address <= 0xFF3F
    ||| 0xFF40 <= address <= 0xFF4B
    ||| address == 0xFF4D
    ||| address == 0xFF50
}

/// The address names an I/O register that can be written.
pub open spec fn io_writable(address: int) -> bool {
    io_readable(address) || address == 0xFF7F
}

impl PeripheralView {
    /// What holds of every bus.
    pub open spec fn wf(self) -> bool {
        &&& self.boot_rom.data.len() == 256
        &&& self.working_ram.len() == 0x2000
        &&& self.zero_page.len() == 127
        &&& self.gpu.wf()
        &&& self.dma.wf()
    }

    /// The registers and memories hold their power-on values: the RAMs are
    /// filled with `0xFF`, every register is zero, no button is held, no
    /// transfer is under way and the start-up program is mapped.
    pub open spec fn is_power_on(self) -> bool {
        &&& self.boot_rom.enabled
        &&& self.boot_rom.data.len() == 256
        &&& self.working_ram == Seq::new(0x2000, |i: int| 0xFFu8)
        &&& self.zero_page == Seq::new(127, |i: int| 0xFFu8)
        &&& self.gpu == GpuView::reset()
        &&& self.nvic == (Nvic {
            interrupt_master_enable: false,
            interrupt_enable: 0,
            interrupt_flag: 0,
        })
        &&& self.timer == (Timer { sys: 0, tima: 0, tma: 0, tac: 0 })
        &&& self.keypad == (Keypad { select: 0, directions: 0x0F, actions: 0x0F })
        &&& self.dma == (DmaView { page: 0, offset: 0, active: false })
    }

    /// What a read of the I/O register at `address` returns, for an address
    /// that names a readable register. The serial registers read as 0; the
    /// sound registers, the speed switch and the two object palettes read
    /// as `0xFF`.
    pub open spec fn io_value(self, address: int) -> u8 {
        if address == 0xFF00 {
            self.keypad.byte()
        } else if address == 0xFF01 || address == 0xFF02 {
            0x00
        } else if address == 0xFF04 {
            (self.timer.sys / 256) as u8
        } else if address == 0xFF05 {
            self.timer.tima
        } else if address == 0xFF06 {
            self.timer.tma
        } else if address == 0xFF07 {
            0xF8u8 | self.timer.tac
        } else if address == 0xFF0F {
            0xE0u8 | self.nvic.interrupt_flag
        } else if address == 0xFF40 {
            self.gpu.lcdc
        } else if address == 0xFF41 {
            self.gpu.status()
        } else if address == 0xFF42 {
            self.gpu.scy
        } else if address == 0xFF43 {
            self.gpu.scx
        } else if address == 0xFF44 {
            self.gpu.ly
        } else if address == 0xFF45 {
            self.gpu.lyc
        } else if address == 0xFF46 {
            self.dma.page
        } else if address == 0xFF47 {
            self.gpu.bgp
        } else if address == 0xFF4A {
            self.gpu.wy
        } else if address == 0xFF4B {
            self.gpu.wx
        } else if address == 0xFF50 {
            if self.boot_rom.enabled {
                0xFE
            } else {
                0xFF
            }
        } else {
            0xFF
        }
    }

    /// What a read of the bus at `address` returns. An address in the I/O
    /// page that names no readable register reads as `0xFF`.
    pub open spec fn peek(self, address: u16) -> u8 {
        if address <= 0x00FF {
            if self.boot_rom.enabled {
                self.boot_rom.data[address as int]
            } else {
                self.cartridge.rom[address as int]
            }
        } else if address <= 0x7FFF {
            self.cartridge.rom[address as int]
        } else if address <= 0x9FFF {
            self.gpu.vram[address - 0x8000]
        } else if address <= 0xBFFF {
            0xFF
        } else if address <= 0xDFFF {
            self.working_ram[address - 0xC000]
        } else if address <= 0xFDFF {
            self.working_ram[address - 0xE000]
        } else if address <= 0xFE9F {
            self.gpu.oam[address - 0xFE00]
        } else if address <= 0xFEFF {
            0x00
        } else if address <= 0xFF7F {
            if io_readable(address as int) {
                self.io_value(address as int)
            } else {
                0xFF
            }
        } else if address <= 0xFFFE {
            self.zero_page[address - 0xFF80]
        } else {
            0xE0u8 | self.nvic.interrupt_enable
        }
    }

    /// The bus after a write of `data` to the I/O register at `address`,
    /// for an address that names a writable register. A write to the
    /// serial, sound and speed registers, to the line counter and to
    /// `0xFF7F` changes nothing.
    pub open spec fn io_written(self, address: int, data: u8) -> PeripheralView {
        if address == 0xFF00 {
            PeripheralView {
                keypad: self.keypad.after_control(data),
                nvic: self.nvic.raised_if(
                    self.keypad.falls_to(self.keypad.after_control(data)),
                    InterruptSources::JOYPAD,
                ),
                ..self
            }
        } else if address == 0xFF04 {
            PeripheralView { timer: Timer { sys: 0, ..self.timer }, ..self }
        } else if address == 0xFF05 {
            PeripheralView { timer: Timer { tima: data, ..self.timer }, ..self }
        } else if address == 0xFF06 {
            PeripheralView { timer: Timer { tma: data, ..self.timer }, ..self }
        } else if address == 0xFF07 {
            PeripheralView { timer: Timer { tac: data & 0x07, ..self.timer }, ..self }
        } else if address == 0xFF0F {
            PeripheralView { nvic: Nvic { interrupt_flag: data, ..self.nvic }, ..self }
        } else if address == 0xFF40 {
            PeripheralView { gpu: GpuView { lcdc: data, ..self.gpu }, ..self }
        } else if address == 0xFF41 {
            PeripheralView { gpu: GpuView { stat: data & 0x78, ..self.gpu }, ..self }
        } else if address == 0xFF42 {
            PeripheralView { gpu: GpuView { scy: data, ..self.gpu }, ..self }
        } else if address == 0xFF43 {
            PeripheralView { gpu: GpuView { scx: data, ..self.gpu }, ..self }
        } else if address == 0xFF45 {
            PeripheralView { gpu: GpuView { lyc: data, ..self.gpu }, ..self }
        } else if address == 0xFF46 {
            PeripheralView { dma: self.dma.started(data), ..self }
        } else if address == 0xFF47 {
            PeripheralView { gpu: GpuView { bgp: data, ..self.gpu }, ..self }
        } else if address == 0xFF48 {
            PeripheralView { gpu: GpuView { obp0: data, ..self.gpu }, ..self }
        } else if address == 0xFF49 {
            PeripheralView { gpu: GpuView { obp1: data, ..self.gpu }, ..self }
        } else if address == 0xFF4A {
            PeripheralView { gpu: GpuView { wy: data, ..self.gpu }, ..self }
        } else if address == 0xFF4B {
            PeripheralView { gpu: GpuView { wx: data, ..self.gpu }, ..self }
        } else if address == 0xFF50 {
            PeripheralView { boot_rom: BootRomView { enabled: false, ..self.boot_rom }, ..self }
        } else {
            self
        }
    }

    /// The bus after a write of `data` at `address`. A write into cartridge
    /// ROM or external RAM, into the unused page, or to an address in the
    /// I/O page that names no writable register changes nothing.
    pub open spec fn poke(self, address: u16, data: u8) -> PeripheralView {
        if address <= 0x7FFF {
            self
        } else if address <= 0x9FFF {
            PeripheralView {
                gpu: GpuView { vram: self.gpu.vram.update(address - 0x8000, data), ..self.gpu },
                ..self
            }
        } else if address <= 0xBFFF {
            self
        } else if address <= 0xDFFF {
            PeripheralView {
                working_ram: self.working_ram.update(address - 0xC000, data),
                ..self
            }
        } else if address <= 0xFDFF {
            PeripheralView {
                working_ram: self.working_ram.update(address - 0xE000, data),
                ..self
            }
        } else if address <= 0xFE9F {
            PeripheralView {
                gpu: GpuView { oam: self.gpu.oam.update(address - 0xFE00, data), ..self.gpu },
                ..self
            }
        } else if address <= 0xFEFF {
            self
        } else if address <= 0xFF7F {
            if io_writable(address as int) {
                self.io_written(address as int, data)
            } else {
                self
            }
        } else if address <= 0xFFFE {
            PeripheralView { zero_page: self.zero_page.update(address - 0xFF80, data), ..self }
        } else {
            PeripheralView { nvic: Nvic { interrupt_enable: data, ..self.nvic }, ..self }
        }
    }

    /// The bus after `key` was pressed or released.
    pub open spec fn after_key(self, key: Key, pressed: bool) -> PeripheralView {
        PeripheralView {
            keypad: self.keypad.after_key(key, pressed),
            nvic: self.nvic.raised_if(
                self.keypad.falls_to(self.keypad.after_key(key, pressed)),
                InterruptSources::JOYPAD,
            ),
            ..self
        }
    }

    /// The bus with `image` loaded as the start-up program; whether the
    /// program is mapped does not change.
    pub open spec fn with_boot_rom(self, image: Seq<u8>) -> PeripheralView {
        PeripheralView { boot_rom: BootRomView { data: image, ..self.boot_rom }, ..self }
    }

    /// The bus after the processor has taken an interrupt off the
    /// controller.
    pub open spec fn after_take(self) -> PeripheralView {
        PeripheralView { nvic: self.nvic.taken(), ..self }
    }

    /// The bus after the master enable has been set or cleared.
    pub open spec fn with_master_enable(self, enable: bool) -> PeripheralView {
        PeripheralView { nvic: Nvic { interrupt_master_enable: enable, ..self.nvic }, ..self }
    }

    /// The bus after the timer has run for `cycles` machine cycles.
    pub open spec fn after_timer(self, cycles: u8) -> PeripheralView {
        PeripheralView {
            timer: self.timer.after_run(cycles),
            nvic: self.nvic.raised_if(self.timer.overflows(cycles), InterruptSources::TIMER),
            ..self
        }
    }

    /// The byte that the transfer engine fetches for entry `i` of the
    /// sprite table.
    pub open spec fn dma_byte(self, i: int) -> u8 {
        self.peek((self.dma.source() + i) as u16)
    }

    /// The bus after the transfer engine has run for `cycles` machine
    /// cycles: the entries of the sprite table that fell due hold what the
    /// bus reads at the source, the others are as they were.
    pub open spec fn after_dma(self, cycles: u8) -> PeripheralView {
        PeripheralView {
            gpu: GpuView {
                oam: Seq::new(
                    160,
                    |i: int|
                        if self.dma.offset <= i < self.dma.offset + self.dma.count(cycles) {
                            self.dma_byte(i)
                        } else {
                            self.gpu.oam[i]
                        },
                ),
                ..self.gpu
            },
            dma: self.dma.progressed(cycles),
            ..self
        }
    }

    /// The bus after the LCD controller has run for `cycles` machine
    /// cycles.
    pub open spec fn after_gpu(self, cycles: u8) -> PeripheralView {
        PeripheralView {
            gpu: self.gpu.advanced(4 * cycles),
            nvic: self.nvic.raised_if(
                self.gpu.vblank_raised(4 * cycles),
                InterruptSources::VBLANK,
            ).raised_if(self.gpu.stat_raised(4 * cycles), InterruptSources::STAT),
            ..self
        }
    }

    /// The bus after `cycles` machine cycles: the timer runs first, then
    /// the transfer engine, then the LCD controller.
    pub open spec fn after_run(self, cycles: u8) -> PeripheralView {
        self.after_timer(cycles).after_dma(cycles).after_gpu(cycles)
    }
}

} // verus!
