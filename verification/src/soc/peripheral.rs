//! The memory bus and the peripherals it owns.

use vstd::prelude::*;
use crate::cartridge::Cartridge;
use crate::debug::DebugCtx;
use crate::soc::nvic::{InterruptSources, Nvic};
use crate::soc::peripheral::bootrom::BootRom;
use crate::soc::peripheral::dma::Dma;
use crate::soc::peripheral::gpu::model::GpuView;
use crate::soc::peripheral::gpu::Gpu;
use crate::soc::peripheral::keypad::{Key, Keypad};
use crate::soc::peripheral::model::{io_readable, io_writable, PeripheralView};
use crate::soc::peripheral::timer::Timer;

pub mod bootrom;
pub mod dma;
pub mod gpu;
pub mod keypad;
pub mod laws;
pub mod model;
pub mod timer;

verus! {

pub const BOOT_ROM_BEGIN: u16 = 0x0000;

pub const BOOT_ROM_END: u16 = 0x00FF;

pub const BOOT_ROM_SIZE: u16 = BOOT_ROM_END - BOOT_ROM_BEGIN + 1;

pub const ROM_BANK_0_BEGIN: u16 = 0x0000;

pub const ROM_BANK_0_END: u16 = 0x3FFF;

pub const ROM_BANK_0_SIZE: u16 = ROM_BANK_0_END - ROM_BANK_0_BEGIN + 1;

pub const ROM_BANK_N_BEGIN: u16 = 0x4000;

pub const ROM_BANK_N_END: u16 = 0x7FFF;

pub const ROM_BANK_N_SIZE: u16 = ROM_BANK_N_END - ROM_BANK_N_BEGIN + 1;

pub const VRAM_BEGIN: u16 = 0x8000;

pub const VRAM_END: u16 = 0x9FFF;

pub const VRAM_SIZE: u16 = VRAM_END - VRAM_BEGIN + 1;

pub const EXTERNAL_RAM_BEGIN: u16 = 0xA000;

pub const EXTERNAL_RAM_END: u16 = 0xBFFF;

pub const WORKING_RAM_BEGIN: u16 = 0xC000;

pub const WORKING_RAM_END: u16 = 0xDFFF;

pub const WORKING_RAM_SIZE: u16 = WORKING_RAM_END - WORKING_RAM_BEGIN + 1;

pub const ECHO_RAM_BEGIN: u16 = 0xE000;

pub const ECHO_RAM_END: u16 = 0xFDFF;

pub const OAM_BEGIN: u16 = 0xFE00;

pub const OAM_END: u16 = 0xFE9F;

pub const OAM_SIZE: u16 = OAM_END - OAM_BEGIN + 1;

pub const UNUSED_BEGIN: u16 = 0xFEA0;

pub const UNUSED_END: u16 = 0xFEFF;

pub const IO_REGISTERS_BEGIN: u16 = 0xFF00;

pub const IO_REGISTERS_END: u16 = 0xFF7F;

pub const ZERO_PAGE_BEGIN: u16 = 0xFF80;

pub const ZERO_PAGE_END: u16 = 0xFFFE;

pub const ZERO_PAGE_SIZE: u16 = ZERO_PAGE_END - ZERO_PAGE_BEGIN + 1;

pub const INTERRUPT_ENABLE_REGISTER: u16 = 0xFFFF;

pub const VBLANK_VECTOR: u16 = 0x40;

pub const LCDSTAT_VECTOR: u16 = 0x48;

pub const TIMER_VECTOR: u16 = 0x50;

/// What a read of an address that nothing answers returns.
pub const UNMAPPED_READ: u8 = 0xFF;

/// Byte-wide access to the 16-bit address space.
pub trait IoAccess {
    fn read(&self, address: u16) -> u8;

    fn write(&mut self, address: u16, data: u8);
}

/// What the processor needs of the interrupt controller.
pub trait Interrupt {
    fn is_an_interrupt_to_run(&self) -> bool;

    fn is_an_interrupt_pending(&self) -> bool;

    fn get_interrupt(&mut self) -> Option<InterruptSources>;

    fn master_enable(&mut self, enable: bool);
}

/// An access to an address of the I/O page that names no register.
#[derive(Copy, Clone, PartialEq, Eq, Structural, Debug)]
pub enum BusError {
    UnmappedIoRead,
    UnmappedIoWrite,
}

/// The bus: cartridge, memories and peripherals behind one address space.
pub struct Peripheral {
    boot_rom: BootRom,
    cartridge: Cartridge,
    working_ram: [u8; 0x2000],
    zero_page: [u8; 127],
    pub gpu: Gpu,
    pub nvic: Nvic,
    timer: Timer,
    pub keypad: Keypad,
    dma: Dma,
}

impl Peripheral {
    pub closed spec fn view(&self) -> PeripheralView {
        PeripheralView {
            boot_rom: self.boot_rom@,
            cartridge: self.cartridge,
            working_ram: self.working_ram@,
            zero_page: self.zero_page@,
            gpu: self.gpu@,
            nvic: self.nvic,
            timer: self.timer,
            keypad: self.keypad,
            dma: self.dma@,
        }
    }

    /// The bus at power-on around `cartridge`: the RAMs filled with `0xFF`,
    /// every register zero, no button held, the start-up program empty and
    /// mapped.
    pub fn new(cartridge: Cartridge) -> (peripheral: Peripheral)
        ensures
            peripheral@.wf(),
            peripheral@.is_power_on(),
            forall|i: int| 0 <= i < 256 ==> peripheral@.boot_rom.data[i] == 0,
            peripheral@.cartridge == cartridge,
    {
        let peripheral = Peripheral {
            boot_rom: BootRom::new(),
            cartridge: cartridge,
            working_ram: [0xFF; 0x2000],
            zero_page: [0xFF; 127],
            gpu: Gpu::new(),
            nvic: Nvic::new(),
            timer: Timer::new(),
            keypad: Keypad::new(),
            dma: Dma::new(),
        };
        assert(peripheral@.working_ram =~= Seq::new(0x2000, |i: int| 0xFFu8));
        assert(peripheral@.zero_page =~= Seq::new(127, |i: int| 0xFFu8));
        peripheral
    }

    /// The LCD controller.
    pub fn gpu(&self) -> (gpu: &Gpu)
        ensures
            gpu@ == self@.gpu,
            self@.wf(),
    {
        self.use_invariant();
        &self.gpu
    }

    /// The interrupt controller.
    pub fn nvic(&self) -> (nvic: &Nvic)
        ensures
            *nvic == self@.nvic,
    {
        &self.nvic
    }

    /// The keypad.
    pub fn keypad(&self) -> (keypad: &Keypad)
        ensures
            *keypad == self@.keypad,
    {
        &self.keypad
    }

    /// The LCD controller, to be changed in place: the bus follows what is
    /// done to it, and nothing else on the bus changes.
    pub fn gpu_mut(&mut self) -> (gpu: &mut Gpu)
        ensures
            gpu@ == old(self)@.gpu,
            final(self)@ == (PeripheralView { gpu: final(gpu)@, ..old(self)@ }),
    {
        &mut self.gpu
    }

    /// The interrupt controller, to be changed in place: the bus follows
    /// what is done to it, and nothing else on the bus changes.
    pub fn nvic_mut(&mut self) -> (nvic: &mut Nvic)
        ensures
            *nvic == old(self)@.nvic,
            final(self)@ == (PeripheralView { nvic: *final(nvic), ..old(self)@ }),
    {
        &mut self.nvic
    }

    /// The keypad, to be changed in place: the bus follows what is done to
    /// it, and nothing else on the bus changes.
    pub fn keypad_mut(&mut self) -> (keypad: &mut Keypad)
        ensures
            *keypad == old(self)@.keypad,
            final(self)@ == (PeripheralView { keypad: *final(keypad), ..old(self)@ }),
    {
        &mut self.keypad
    }

    /// States what holds of every bus.
    pub fn use_invariant(&self)
        ensures
            self@.wf(),
    {
        self.gpu.use_invariant();
        self.dma.use_invariant();
    }

    /// Lets `cycles` machine cycles pass on the timer, the transfer engine,
    /// the LCD controller and the cartridge, in this order.
    pub fn run(&mut self, runned_cycles: u8)
        ensures
            final(self)@ == old(self)@.after_run(runned_cycles),
            final(self)@.wf(),
    {
        self.timer.run(runned_cycles, &mut self.nvic);
        self.gpu.use_invariant();
        let ghost mid = self@;
        let first: u8 = self.dma.offset();
        let count: u8 = self.dma.count(runned_cycles);
        let source: u16 = self.dma.source();
        let mut copied: u8 = 0;
        while copied < count
            invariant
                copied <= count,
                first == mid.dma.offset,
                first + count <= 160,
                source == mid.dma.source(),
                source <= 0xFF00,
                count > 0 ==> mid.dma.active,
                mid.gpu.oam.len() == 160,
                self@.gpu.oam.len() == 160,
                self@ == (PeripheralView {
                    gpu: GpuView { oam: self@.gpu.oam, ..mid.gpu },
                    ..mid
                }),
                forall|i: int|
                    0 <= i < 160 ==> #[trigger] self@.gpu.oam[i] == if first <= i < first
                        + copied {
                        mid.dma_byte(i)
                    } else {
                        mid.gpu.oam[i]
                    },
            decreases count - copied,
        {
            let entry: u8 = first + copied;
            let data: u8 = self.read(source + entry as u16);
            assert(data == mid.dma_byte(entry as int));
            self.gpu.write_oam(entry as usize, data);
            copied = copied + 1;
        }
        assert(self@.gpu.oam =~= mid.after_dma(runned_cycles).gpu.oam);
        self.dma.advance(runned_cycles);
        self.gpu.run(runned_cycles, &mut self.nvic);
        self.cartridge.run(runned_cycles);
        self.use_invariant();
    }

    /// Loads the 256-byte start-up program; whether it is mapped does not
    /// change.
    pub fn load_bootrom(&mut self, boot_rom: &[u8])
        requires
            boot_rom@.len() == 256,
        ensures
            final(self)@ == old(self)@.with_boot_rom(boot_rom@),
            final(self)@.wf(),
    {
        self.boot_rom.load(boot_rom);
        self.use_invariant();
    }

    /// Records that `key` is now held or released, and flags the joypad
    /// line when a visible line of the button matrix falls.
    pub fn set_key(&mut self, key: Key, pressed: bool)
        ensures
            final(self)@ == old(self)@.after_key(key, pressed),
            final(self)@.wf(),
    {
        self.keypad.set_key(key, pressed, &mut self.nvic);
        self.use_invariant();
    }

    /// The colour index of a pixel of the frame, row-major from the top
    /// left.
    pub fn get_frame_buffer(&self, pixel_index: usize) -> (color: u8)
        requires
            pixel_index < 23040,
        ensures
            color == self@.gpu.frame[pixel_index as int],
            color <= 3,
    {
        self.gpu.get_frame_buffer(pixel_index)
    }

    /// Draws the tile viewer of the debugger afresh from video memory.
    pub fn refresh_viewer(&self, dbg_ctx: &mut DebugCtx)
        ensures
            final(dbg_ctx)@ == old(dbg_ctx)@.refreshed(self@.gpu),
    {
        dbg_ctx.refresh_vram_viewer(&self.gpu);
    }

    /// Reads an I/O register; `address` is the bus address. Fails on an
    /// address that names no readable register.
    pub fn read_io_register(&self, address: usize) -> (result: Result<u8, BusError>)
        ensures
            io_readable(address as int) ==> result == Ok::<u8, BusError>(
                self@.io_value(address as int),
            ),
            !io_readable(address as int) ==> result == Err::<u8, BusError>(
                BusError::UnmappedIoRead,
            ),
    {
        match address {
            0xFF00 => Ok(self.keypad.get()),
            0xFF01 => Ok(0),
            0xFF02 => Ok(0),
            0xFF04 => Ok(self.timer.get_divider()),
            0xFF05 => Ok(self.timer.get_value()),
            0xFF06 => Ok(self.timer.get_modulo()),
            0xFF07 => Ok(self.timer.settings_to_byte()),
            0xFF0F => Ok(self.nvic.get_it_flag()),
            0xFF10..=0xFF3F => Ok(0xFF),
            0xFF40 => Ok(self.gpu.control_to_byte()),
            0xFF41 => Ok(self.gpu.status_to_byte()),
            0xFF42 => Ok(self.gpu.get_scy()),
            0xFF43 => Ok(self.gpu.get_scx()),
            0xFF44 => Ok(self.gpu.get_current_line()),
            0xFF45 => Ok(self.gpu.get_compare_line()),
            0xFF46 => Ok(self.dma.page()),
            0xFF47 => Ok(self.gpu.get_background_palette()),
            0xFF48 => Ok(0xFF),
            0xFF49 => Ok(0xFF),
            0xFF4A => Ok(self.gpu.get_window_y()),
            0xFF4B => Ok(self.gpu.get_window_x()),
            0xFF4D => Ok(0xFF),
            0xFF50 => Ok(
                if self.boot_rom.get_state() {
                    0xFE
                } else {
                    0xFF
                },
            ),
            _ => Err(BusError::UnmappedIoRead),
        }
    }

    /// Writes an I/O register; `address` is the bus address. Fails, and
    /// changes nothing, on an address that names no writable register.
    pub fn write_io_register(&mut self, address: usize, data: u8) -> (result: Result<
        (),
        BusError,
    >)
        ensures
            io_writable(address as int) ==> result == Ok::<(), BusError>(()) && final(self)@
                == old(self)@.io_written(address as int, data),
            !io_writable(address as int) ==> result == Err::<(), BusError>(
                BusError::UnmappedIoWrite,
            ) && final(self)@ == old(self)@,
    {
        match address {
            0xFF00 => self.keypad.control(data, &mut self.nvic),
            0xFF01 => {},
            0xFF02 => {},
            0xFF04 => self.timer.set_divider(),
            0xFF05 => self.timer.set_value(data),
            0xFF06 => self.timer.set_modulo(data),
            0xFF07 => self.timer.settings_from_byte(data),
            0xFF0F => self.nvic.set_it_flag(data),
            0xFF10..=0xFF3F => {},
            0xFF40 => self.gpu.control_from_byte(data),
            0xFF41 => self.gpu.status_from_byte(data),
            0xFF42 => self.gpu.set_scy(data),
            0xFF43 => self.gpu.set_scx(data),
            0xFF44 => {},
            0xFF45 => self.gpu.set_compare_line(data),
            0xFF46 => self.dma.start(data),
            0xFF47 => self.gpu.set_background_palette(data),
            0xFF48 => self.gpu.set_object_palette_0(data),
            0xFF49 => self.gpu.set_object_palette_1(data),
            0xFF4A => self.gpu.set_window_y(data),
            0xFF4B => self.gpu.set_window_x(data),
            0xFF4D => {},
            0xFF50 => self.boot_rom.disable(),
            0xFF7F => {},
            _ => {
                return Err(BusError::UnmappedIoWrite);
            },
        }
        Ok(())
    }

    /// Reads the bus like `read`, but fails on an address of the I/O page
    /// that names no readable register.
    pub fn checked_read(&self, address: u16) -> (result: Result<u8, BusError>)
        ensures
            result is Err <==> 0xFF00 <= address <= 0xFF7F && !io_readable(address as int),
            result is Ok ==> result == Ok::<u8, BusError>(self@.peek(address)),
            result is Err ==> result == Err::<u8, BusError>(BusError::UnmappedIoRead),
    {
        if IO_REGISTERS_BEGIN <= address && address <= IO_REGISTERS_END {
            self.read_io_register(address as usize)
        } else {
            Ok(self.read(address))
        }
    }

    /// Writes the bus like `write`, but fails, and changes nothing, on an
    /// address of the I/O page that names no writable register.
    pub fn checked_write(&mut self, address: u16, data: u8) -> (result: Result<(), BusError>)
        ensures
            result is Err <==> 0xFF00 <= address <= 0xFF7F && !io_writable(address as int),
            result is Ok ==> result == Ok::<(), BusError>(()),
            result is Err ==> result == Err::<(), BusError>(BusError::UnmappedIoWrite),
            final(self)@ == old(self)@.poke(address, data),
    {
        if IO_REGISTERS_BEGIN <= address && address <= IO_REGISTERS_END {
            self.write_io_register(address as usize, data)
        } else {
            self.write(address, data);
            Ok(())
        }
    }
}

impl IoAccess for Peripheral {
    /// Reads the bus. Every address answers; one in the I/O page that names
    /// no readable register reads as `0xFF`.
    fn read(&self, address: u16) -> (data: u8)
        ensures
            data == self@.peek(address),
            self@.wf(),
    {
        self.use_invariant();
        if address <= BOOT_ROM_END {
            if self.boot_rom.get_state() {
                self.boot_rom.read(address)
            } else {
                self.cartridge.read_bank_0(address as usize)
            }
        } else if address <= ROM_BANK_0_END {
            self.cartridge.read_bank_0(address as usize)
        } else if address <= ROM_BANK_N_END {
            self.cartridge.read_bank_n(address as usize)
        } else if address <= VRAM_END {
            self.gpu.read_vram(address - VRAM_BEGIN)
        } else if address <= EXTERNAL_RAM_END {
            self.cartridge.read_ram(address as usize)
        } else if address <= WORKING_RAM_END {
            self.working_ram[(address - WORKING_RAM_BEGIN) as usize]
        } else if address <= ECHO_RAM_END {
            self.working_ram[(address - ECHO_RAM_BEGIN) as usize]
        } else if address <= OAM_END {
            self.gpu.read_oam((address - OAM_BEGIN) as usize)
        } else if address <= UNUSED_END {
            0
        } else if address <= IO_REGISTERS_END {
            match self.read_io_register(address as usize) {
                Ok(data) => data,
                Err(_) => UNMAPPED_READ,
            }
        } else if address <= ZERO_PAGE_END {
            self.zero_page[(address - ZERO_PAGE_BEGIN) as usize]
        } else {
            self.nvic.get_it_enable()
        }
    }

    /// Writes the bus. Every address takes the write; one that nothing
    /// answers drops it.
    fn write(&mut self, address: u16, data: u8)
        ensures
            final(self)@ == old(self)@.poke(address, data),
            final(self)@.wf(),
    {
        if address <= ROM_BANK_0_END {
            self.cartridge.write_bank_0(address as usize, data);
        } else if address <= ROM_BANK_N_END {
            self.cartridge.write_bank_n(address as usize, data);
        } else if address <= VRAM_END {
            self.gpu.write_vram(address - VRAM_BEGIN, data);
        } else if address <= EXTERNAL_RAM_END {
            self.cartridge.write_ram(address as usize, data);
        } else if address <= WORKING_RAM_END {
            self.working_ram[(address - WORKING_RAM_BEGIN) as usize] = data;
        } else if address <= ECHO_RAM_END {
            self.working_ram[(address - ECHO_RAM_BEGIN) as usize] = data;
        } else if address <= OAM_END {
            self.gpu.write_oam((address - OAM_BEGIN) as usize, data);
        } else if address <= UNUSED_END {
        } else if address <= IO_REGISTERS_END {
            let _ = self.write_io_register(address as usize, data);
        } else if address <= ZERO_PAGE_END {
            self.zero_page[(address - ZERO_PAGE_BEGIN) as usize] = data;
        } else {
            self.nvic.set_it_enable(data);
        }
        self.use_invariant();
    }
}

impl Interrupt for Peripheral {
    fn is_an_interrupt_to_run(&self) -> (ready: bool)
        ensures
            ready == self@.nvic.ready(),
    {
        self.nvic.is_an_interrupt_to_run()
    }

    fn is_an_interrupt_pending(&self) -> (pending: bool)
        ensures
            pending == self@.nvic.pending(),
    {
        self.nvic.is_an_interrupt_pending()
    }

    fn get_interrupt(&mut self) -> (taken: Option<InterruptSources>)
        ensures
            taken == old(self)@.nvic.highest(),
            final(self)@ == old(self)@.after_take(),
    {
        self.nvic.get_interrupt()
    }

    fn master_enable(&mut self, enable: bool)
        ensures
            final(self)@ == old(self)@.with_master_enable(enable),
    {
        self.nvic.master_enable(enable);
    }
}

} // verus!
