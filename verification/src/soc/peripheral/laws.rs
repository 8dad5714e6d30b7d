//! What holds of the bus whatever state it is in.

use vstd::prelude::*;
use crate::soc::peripheral::gpu::model::lemma_advanced;
use crate::soc::peripheral::keypad::Key;
use crate::soc::peripheral::model::{io_readable, io_writable, PeripheralView};

verus! {

/// The address lies in one of the memories that hold what is written to
/// them: video memory, work RAM and its echo, the sprite table, or the
/// zero page.
pub open spec fn is_ram(address: u16) -> bool {
    ||| 0x8000 <= address <= 0x9FFF
    ||| 0xC000 <= address <= 0xFE9F
    ||| 0xFF80 <= address <= 0xFFFE
}

/// The address lies where a write changes nothing: cartridge ROM, external
/// RAM, the unused page, or an address of the I/O page that names no
/// writable register.
pub open spec fn is_inert(address: u16) -> bool {
    ||| address <= 0x7FFF
    ||| 0xA000 <= address <= 0xBFFF
    ||| 0xFEA0 <= address <= 0xFEFF
    ||| 0xFF00 <= address <= 0xFF7F && !io_writable(address as int)
}

/// The address names a register that reads back what was written to it.
pub open spec fn reads_back(address: u16) -> bool {
    ||| address == 0xFF05
    ||| address == 0xFF06
    ||| address == 0xFF40
    ||| address == 0xFF42
    ||| address == 0xFF43
    ||| address == 0xFF45
    ||| address == 0xFF46
    ||| address == 0xFF47
    ||| address == 0xFF4A
    ||| address == 0xFF4B
}

/// Something that happens to the bus.
pub enum BusEvent {
    /// A write of `data` at `address`.
    Write { address: u16, data: u8 },
    /// The passing of `cycles` machine cycles.
    Run { cycles: u8 },
    /// A button going down or up.
    Button { key: Key, pressed: bool },
    /// The loading of a start-up program.
    LoadBootRom { image: Seq<u8> },
    /// The processor taking an interrupt off the controller.
    TakeInterrupt,
    /// The processor setting or clearing the master enable.
    MasterEnable { enable: bool },
}

impl PeripheralView {
    /// The bus after `event`.
    pub open spec fn after(self, event: BusEvent) -> PeripheralView {
        match event {
            BusEvent::Write { address, data } => self.poke(address, data),
            BusEvent::Run { cycles } => self.after_run(cycles),
            BusEvent::Button { key, pressed } => self.after_key(key, pressed),
            BusEvent::LoadBootRom { image } => self.with_boot_rom(image),
            BusEvent::TakeInterrupt => self.after_take(),
            BusEvent::MasterEnable { enable } => self.with_master_enable(enable),
        }
    }

    /// The bus after `events`, in order.
    pub open spec fn after_all(self, events: Seq<BusEvent>) -> PeripheralView
        decreases events.len(),
    {
        if events.len() == 0 {
            self
        } else {
            self.after_all(events.drop_last()).after(events.last())
        }
    }

    /// The bus after it has run for each of `cycles` in turn.
    pub open spec fn ran(self, cycles: Seq<u8>) -> PeripheralView
        decreases cycles.len(),
    {
        if cycles.len() == 0 {
            self
        } else {
            self.ran(cycles.drop_last()).after_run(cycles.last())
        }
    }
}

/// The sum of the numbers of machine cycles.
pub open spec fn total_cycles(cycles: Seq<u8>) -> int
    decreases cycles.len(),
{
    if cycles.len() == 0 {
        0
    } else {
        total_cycles(cycles.drop_last()) + cycles.last()
    }
}

/// A write leaves a bus well formed.
pub proof fn lemma_poke_wf(bus: PeripheralView, address: u16, data: u8)
    requires
        bus.wf(),
    ensures
        bus.poke(address, data).wf(),
{
}

/// The passing of machine cycles leaves a bus well formed, and changes
/// neither the cartridge, the start-up program and its latch, the RAMs,
/// video memory nor the keypad.
pub proof fn lemma_after_run_keeps(bus: PeripheralView, cycles: u8)
    requires
        bus.wf(),
    ensures
        bus.after_run(cycles).wf(),
        bus.after_run(cycles).cartridge == bus.cartridge,
        bus.after_run(cycles).boot_rom == bus.boot_rom,
        bus.after_run(cycles).working_ram == bus.working_ram,
        bus.after_run(cycles).zero_page == bus.zero_page,
        bus.after_run(cycles).keypad == bus.keypad,
        bus.after_run(cycles).gpu.vram == bus.gpu.vram,
        bus.after_run(cycles).dma == bus.dma.progressed(cycles),
        bus.after_run(cycles).gpu.oam == bus.after_timer(cycles).after_dma(cycles).gpu.oam,
        bus.after_run(cycles).gpu.dot() == (bus.gpu.dot() + 4 * cycles) % 70224,
{
    let mid = bus.after_timer(cycles).after_dma(cycles);
    assert(mid.gpu.wf());
    lemma_advanced(mid.gpu, 4 * cycles);
}

/// Every address can be read and written, and what is read after a write
/// goes by the region: a memory holds the byte written; a register that
/// reads back holds it too; the two interrupt registers hold it with their
/// three upper bits set; and where nothing takes the write, the bus is as
/// it was.
pub proof fn lemma_write_then_read(bus: PeripheralView, address: u16, data: u8)
    requires
        bus.wf(),
    ensures
        is_ram(address) ==> bus.poke(address, data).peek(address) == data,
        reads_back(address) ==> bus.poke(address, data).peek(address) == data,
        address == 0xFF0F || address == 0xFFFF ==> bus.poke(address, data).peek(address) == 0xE0u8
            | data,
        is_inert(address) ==> bus.poke(address, data) == bus,
        0xFF00 <= address <= 0xFF7F && !io_readable(address as int) ==> bus.peek(address) == 0xFF,
        0xFEA0 <= address <= 0xFEFF ==> bus.peek(address) == 0,
{
}

/// The echo of work RAM: an address from `0xE000` to `0xFDFF` reads what
/// the address `0x2000` below it reads, and a write to the one is a write
/// to the other.
pub proof fn lemma_echo_mirrors(bus: PeripheralView, address: u16, data: u8)
    requires
        0xE000 <= address <= 0xFDFF,
    ensures
        bus.peek(address) == bus.peek((address - 0x2000) as u16),
        bus.poke(address, data) == bus.poke((address - 0x2000) as u16, data),
{
}

/// The three upper bits of the interrupt flag register and of the
/// interrupt enable register read as one, in every state.
pub proof fn lemma_interrupt_registers_upper_bits(bus: PeripheralView)
    ensures
        bus.peek(0xFF0F) & 0xE0 == 0xE0,
        bus.peek(0xFFFF) & 0xE0 == 0xE0,
{
    let flags = bus.nvic.interrupt_flag;
    let enable = bus.nvic.interrupt_enable;
    assert((0xE0u8 | flags) & 0xE0 == 0xE0) by (bit_vector);
    assert((0xE0u8 | enable) & 0xE0 == 0xE0) by (bit_vector);
}

/// The event is one that a well-formed bus can meet: a start-up program
/// that is loaded is 256 bytes long.
pub open spec fn event_fits(event: BusEvent) -> bool {
    event matches BusEvent::LoadBootRom { image } ==> image.len() == 256
}

/// Nothing that happens to the bus maps the start-up program again or
/// changes the cartridge.
pub proof fn lemma_event_keeps_latch(bus: PeripheralView, event: BusEvent)
    requires
        bus.wf(),
        event_fits(event),
    ensures
        bus.after(event).wf(),
        bus.after(event).cartridge == bus.cartridge,
        !bus.boot_rom.enabled ==> !bus.after(event).boot_rom.enabled,
{
    match event {
        BusEvent::Write { address, data } => {},
        BusEvent::Run { cycles } => {
            lemma_after_run_keeps(bus, cycles);
        },
        _ => {},
    }
}

/// The latch of the start-up program: once `0xFF50` has been written, with
/// whatever value, every read of the first 256 addresses returns the byte
/// of the cartridge, whatever happens to the bus afterwards.
pub proof fn lemma_boot_latch(
    bus: PeripheralView,
    data: u8,
    events: Seq<BusEvent>,
    address: u16,
)
    requires
        bus.wf(),
        address <= 0x00FF,
        forall|i: int| 0 <= i < events.len() ==> event_fits(#[trigger] events[i]),
    ensures
        bus.poke(0xFF50, data).after_all(events).wf(),
        !bus.poke(0xFF50, data).after_all(events).boot_rom.enabled,
        bus.poke(0xFF50, data).after_all(events).cartridge == bus.cartridge,
        bus.poke(0xFF50, data).after_all(events).peek(address) == bus.cartridge.rom[address as int],
    decreases events.len(),
{
    if events.len() > 0 {
        lemma_boot_latch(bus, data, events.drop_last(), address);
        lemma_event_keeps_latch(bus.poke(0xFF50, data).after_all(events.drop_last()), events.last());
    }
}

/// While the start-up program is mapped, the first 256 addresses read it
/// and not the cartridge.
pub proof fn lemma_boot_overlay(bus: PeripheralView, address: u16)
    requires
        address <= 0x00FF,
    ensures
        bus.boot_rom.enabled ==> bus.peek(address) == bus.boot_rom.data[address as int],
        !bus.boot_rom.enabled ==> bus.peek(address) == bus.cartridge.rom[address as int],
{
}

/// The line counter through any number of runs: the position in the frame
/// moves on by four clock periods per machine cycle, modulo the 70224
/// periods of a frame, and the line counter is that position divided by
/// the 456 periods of a line.
pub proof fn lemma_line_counter_after_runs(bus: PeripheralView, cycles: Seq<u8>)
    requires
        bus.wf(),
    ensures
        bus.ran(cycles).wf(),
        bus.ran(cycles).gpu.dot() == (bus.gpu.dot() + 4 * total_cycles(cycles)) % 70224,
        bus.ran(cycles).gpu.ly == bus.ran(cycles).gpu.dot() / 456,
        0 <= total_cycles(cycles),
    decreases cycles.len(),
{
    if cycles.len() > 0 {
        lemma_line_counter_after_runs(bus, cycles.drop_last());
        lemma_after_run_keeps(bus.ran(cycles.drop_last()), cycles.last());
    }
}

/// The bus reads the same at entry `entry` of page `page` whatever time
/// passes: every page but the I/O page, whose registers move, and of that
/// page the part that is zero-page RAM.
pub open spec fn source_is_steady(page: u8, entry: int) -> bool {
    page != 0xFF || entry >= 0x80
}

/// A write to `0xFF46` starts a transfer and copies nothing itself: the
/// sprite table is as it was, the source is the page written, and all 160
/// bytes are still to copy, whether or not a transfer was under way.
pub proof fn lemma_dma_start(bus: PeripheralView, page: u8)
    requires
        bus.wf(),
    ensures
        bus.poke(0xFF46, page).wf(),
        bus.poke(0xFF46, page).gpu == bus.gpu,
        bus.poke(0xFF46, page).dma.active,
        bus.poke(0xFF46, page).dma.source() == page * 256,
        bus.poke(0xFF46, page).dma.offset == 0,
        bus.poke(0xFF46, page).dma.remaining() == 160,
        bus.poke(0xFF46, page).peek(0xFF46) == page,
{
}

/// A transfer into the sprite table takes 160 machine cycles. After a write
/// to `0xFF46` and a total of `n` cycles, however they are split into runs,
/// the first `n` entries of the table have been copied and the rest of the
/// table is as it was; an entry copied from where the bus reads steadily
/// holds what the bus read there at the write. The transfer is under way
/// until the total reaches 160; from then on the engine is idle, its offset
/// back at 0, and the table holds the 160 bytes of the page.
pub proof fn lemma_dma_duration(bus: PeripheralView, page: u8, cycles: Seq<u8>, entry: int)
    requires
        bus.wf(),
        0 <= entry < 160,
    ensures
        ({
            let end = bus.poke(0xFF46, page).ran(cycles);
            let total = total_cycles(cycles);
            &&& end.dma.active == (total < 160)
            &&& end.dma.offset == if total < 160 {
                total
            } else {
                0
            }
            &&& end.dma.remaining() == if total < 160 {
                160 - total
            } else {
                0
            }
            &&& entry >= total ==> end.gpu.oam[entry] == bus.gpu.oam[entry]
            &&& entry < total && source_is_steady(page, entry) ==> end.gpu.oam[entry] == bus.peek(
                (page * 256 + entry) as u16,
            )
        }),
{
    lemma_dma_progress(bus, page, cycles);
}

/// The state of a transfer after any number of runs.
proof fn lemma_dma_progress(bus: PeripheralView, page: u8, cycles: Seq<u8>)
    requires
        bus.wf(),
    ensures
        ({
            let end = bus.poke(0xFF46, page).ran(cycles);
            let total = total_cycles(cycles);
            &&& end.wf()
            &&& 0 <= total
            &&& end.dma.page == page
            &&& end.cartridge == bus.cartridge
            &&& end.boot_rom == bus.boot_rom
            &&& end.working_ram == bus.working_ram
            &&& end.zero_page == bus.zero_page
            &&& end.gpu.vram == bus.gpu.vram
            &&& end.dma.active == (total < 160)
            &&& total < 160 ==> end.dma.offset == total
            &&& forall|i: int|
                total <= i < 160 ==> #[trigger] end.gpu.oam[i] == bus.gpu.oam[i]
            &&& forall|i: int|
                0 <= i < total && i < 160 && source_is_steady(page, i) ==> #[trigger] end.gpu.oam[i]
                    == bus.peek((page * 256 + i) as u16)
        }),
    decreases cycles.len(),
{
    let started = bus.poke(0xFF46, page);
    if cycles.len() > 0 {
        let before = started.ran(cycles.drop_last());
        let step = cycles.last();
        lemma_dma_progress(bus, page, cycles.drop_last());
        lemma_after_run_keeps(before, step);
        let mid = before.after_timer(step);
        let end = before.after_run(step);
        let done = total_cycles(cycles.drop_last());
        assert forall|i: int| done + step <= i < 160 implies #[trigger] end.gpu.oam[i]
            == bus.gpu.oam[i] by {}
        assert forall|i: int|
            0 <= i < done + step && i < 160 && source_is_steady(page, i) implies #[trigger] end.gpu.oam[i]
            == bus.peek((page * 256 + i) as u16) by {
            if mid.dma.offset <= i < mid.dma.offset + mid.dma.count(step) {
                assert(mid.dma_byte(i) == bus.peek((page * 256 + i) as u16));
            }
        }
    }
}

} // verus!
