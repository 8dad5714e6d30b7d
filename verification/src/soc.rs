//! The system-on-chip: the bus with its peripherals, and the hand-over
//! between the bus and the processor at each instruction boundary.

use vstd::prelude::*;
use crate::cartridge::{image_supported, Cartridge};
use crate::soc::nvic::{InterruptSources, Nvic};
use crate::soc::peripheral::model::PeripheralView;
use crate::soc::peripheral::{Interrupt, Peripheral};

pub mod nvic;
pub mod peripheral;

verus! {

/// Machine cycles that the dispatch of an interrupt takes.
pub const DISPATCH_CYCLES: u8 = 5;

/// What the processor is to do at an instruction boundary.
#[derive(Copy, Clone, PartialEq, Eq, Structural, Debug)]
pub enum CpuOrder {
    /// Leave the halted state, push the program counter and jump to
    /// `vector`. The master enable has been cleared.
    Dispatch { vector: u16 },
    /// Execute one instruction; leave the halted state first when `wake`.
    Execute { wake: bool },
}

impl CpuOrder {
    /// Machine cycles that the order takes, given what the processor
    /// reports for the instruction it executed.
    pub open spec fn cost(self, instruction_cycles: u8) -> u8 {
        match self {
            CpuOrder::Dispatch { .. } => 5,
            CpuOrder::Execute { .. } => instruction_cycles,
        }
    }
}

/// The order that an interrupt controller in state `nvic` gives rise to:
/// with the master enable set and a line requesting, the dispatch of the
/// line of highest priority; else an instruction, before which a halted
/// processor wakes if any enabled flag is set.
pub open spec fn order_for(nvic: Nvic) -> CpuOrder {
    if nvic.ready() {
        match nvic.highest() {
            Some(source) => CpuOrder::Dispatch { vector: source.vector_of() },
            None => CpuOrder::Execute { wake: true },
        }
    } else {
        CpuOrder::Execute { wake: nvic.pending() }
    }
}

/// The interrupt controller once the order has been given: on a dispatch
/// the flag of the line served and the master enable are cleared.
pub open spec fn nvic_after_order(nvic: Nvic) -> Nvic {
    if nvic.ready() {
        match nvic.highest() {
            Some(source) => Nvic { interrupt_master_enable: false, ..nvic.acknowledged(source) },
            None => nvic,
        }
    } else {
        nvic
    }
}

/// The bus and what hangs on it. The processor is driven from outside: it
/// is told what to do by `schedule`, does it against `peripheral`, and
/// reports back through `run`.
pub struct Soc {
    pub peripheral: Peripheral,
}

impl Soc {
    /// A system at power-on with the start-up program and the cartridge
    /// image in place.
    pub fn new(boot_rom: &[u8], rom: &[u8]) -> (soc: Soc)
        requires
            boot_rom@.len() == 256,
            image_supported(rom@),
        ensures
            soc.peripheral@.wf(),
            soc.peripheral@.is_power_on(),
            soc.peripheral@.boot_rom.data == boot_rom@,
            soc.peripheral@.cartridge.rom@ == rom@.subrange(0, 0x8000),
    {
        let mut peripheral = Peripheral::new(Cartridge::new(rom));
        peripheral.load_bootrom(boot_rom);
        Soc { peripheral }
    }

    /// Decides what the processor does next. A dispatch takes the line of
    /// highest priority off the controller and clears the master enable.
    pub fn schedule(&mut self) -> (order: CpuOrder)
        ensures
            order == order_for(old(self).peripheral@.nvic),
            final(self).peripheral@ == (PeripheralView {
                nvic: nvic_after_order(old(self).peripheral@.nvic),
                ..old(self).peripheral@
            }),
    {
        if self.peripheral.is_an_interrupt_to_run() {
            match self.peripheral.get_interrupt() {
                Some(source) => {
                    self.peripheral.master_enable(false);
                    CpuOrder::Dispatch { vector: source.vector() }
                },
                None => CpuOrder::Execute { wake: true },
            }
        } else {
            CpuOrder::Execute { wake: self.peripheral.is_an_interrupt_pending() }
        }
    }

    /// Accounts for an order that the processor has carried out: the
    /// peripherals run for the machine cycles it took, five for a dispatch
    /// and else what the processor reports, and that number is returned.
    pub fn run(&mut self, order: CpuOrder, instruction_cycles: u8) -> (cycles: u8)
        ensures
            cycles == order.cost(instruction_cycles),
            final(self).peripheral@ == old(self).peripheral@.after_run(cycles),
    {
        let cycles: u8 = match order {
            CpuOrder::Dispatch { .. } => DISPATCH_CYCLES,
            CpuOrder::Execute { .. } => instruction_cycles,
        };
        self.peripheral.run(cycles);
        cycles
    }

    /// The colour index of a pixel of the frame, row-major from the top
    /// left.
    pub fn get_frame_buffer(&self, pixel_index: usize) -> (color: u8)
        requires
            pixel_index < 23040,
        ensures
            color == self.peripheral@.gpu.frame[pixel_index as int],
            color <= 3,
    {
        self.peripheral.get_frame_buffer(pixel_index)
    }
}

/// A dispatch serves a line that is enabled and flagged, with the vector of
/// that line, and no line of higher priority requests; afterwards the
/// master enable is off, so that the next order is an instruction.
pub proof fn lemma_dispatch(nvic: Nvic, other: InterruptSources)
    ensures
        match order_for(nvic) {
            CpuOrder::Dispatch { vector } => {
                &&& nvic.ready()
                &&& nvic.highest() is Some
                &&& vector == nvic.highest()->0.vector_of()
                &&& nvic.requests(other) ==> nvic.highest()->0.index() <= other.index()
                &&& !nvic_after_order(nvic).interrupt_master_enable
                &&& order_for(nvic_after_order(nvic)) is Execute
            },
            CpuOrder::Execute { wake } => {
                &&& nvic_after_order(nvic) == nvic
                &&& wake == nvic.pending()
                &&& !(nvic.interrupt_master_enable && nvic.requests(other))
            },
        },
{
    crate::soc::nvic::lemma_highest_is_first(nvic, other);
    let e = nvic.interrupt_enable;
    let f = nvic.interrupt_flag;
    let m = other.mask();
    assert(e & f & m != 0 ==> e & f != 0) by (bit_vector);
}

} // verus!
