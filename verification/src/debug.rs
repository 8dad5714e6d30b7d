//! The debugger: a command queue, a breakpoint, and a viewer of the tiles
//! in video memory.

use vstd::prelude::*;
use crate::emulator::{
    accounted, debug_mode_outcome, instant_now, wait_next_frame, Action, Emulator, EmulatorState,
};
use crate::soc::peripheral::gpu::model::{grey_of, plane_pixel, GpuView};
use crate::soc::peripheral::gpu::{decode_plane_pixel, Gpu};
use crate::soc::CpuOrder;

pub mod cli;

verus! {

/// Tiles in one row of the viewer.
pub const NB_TILE_X: usize = 16;

/// Rows of tiles in the viewer.
pub const NB_TILE_Y: usize = 24;

/// Pixels along the side of a tile.
pub const TILE_SIZE: usize = 8;

/// Pixels in one row of the viewer.
pub const VIEWER_WIDTH: usize = 128;

/// Pixels in the viewer: 128 across, 192 down.
pub const VIEWER_LENGTH: usize = 24576;

#[derive(Copy, Clone, PartialEq, Eq, Structural, Debug)]
pub enum DebuggerCommand {
    HALT,
    RUN,
    STEP,
}

#[derive(Copy, Clone, PartialEq, Eq, Structural, Debug)]
pub enum DebuggerState {
    HALT,
    RUN,
    STEP,
}

/// The state of the debugger as plain values.
pub struct DebugView {
    /// Commands not yet looked at, oldest first.
    pub cmd: Seq<DebuggerCommand>,
    pub breakpoint: u16,
    pub break_enabled: bool,
    pub debugger_state: DebuggerState,
    /// The registers of the processor are to be shown at the next halt.
    pub display_cpu_reg: bool,
    /// The tile viewer: one opaque grey pixel, `0xFFRRGGBB`, per entry.
    pub vram_viewer_buffer: Seq<u32>,
}

/// The opaque pixel of a grey level.
pub open spec fn opaque_grey(grey: u8) -> u32 {
    0xFF00_0000u32 | ((grey as u32) << 16u32) | ((grey as u32) << 8u32) | (grey as u32)
}

/// The pixel of the tile viewer at `index`: the tiles of the first three
/// quarters of video memory, sixteen to a row, each pixel shaded by the
/// background palette.
pub open spec fn viewer_pixel(gpu: GpuView, index: int) -> u32 {
    let y = index / 128;
    let x = index % 128;
    let tile = (y / 8) * 16 + x / 8;
    let row = tile * 16 + (y % 8) * 2;
    let color = plane_pixel(gpu.vram[row], gpu.vram[row + 1], (x % 8) as u8);
    opaque_grey(grey_of(gpu.background_shade(color)))
}

impl DebugView {
    /// The oldest command, if there is one.
    pub open spec fn head(self) -> Option<DebuggerCommand> {
        if self.cmd.len() > 0 {
            Some(self.cmd[0])
        } else {
            None
        }
    }

    /// The queue without its oldest command.
    pub open spec fn rest(self) -> Seq<DebuggerCommand> {
        if self.cmd.len() > 0 {
            self.cmd.remove(0)
        } else {
            self.cmd
        }
    }

    /// A halted debugger after it has looked at its queue: the oldest
    /// command is taken off; `RUN` and `STEP` leave the halt and ask for the
    /// registers to be shown at the next one; else the request to show them
    /// has been met.
    pub open spec fn polled(self) -> DebugView {
        match self.head() {
            Some(DebuggerCommand::RUN) => DebugView {
                cmd: self.rest(),
                debugger_state: DebuggerState::RUN,
                display_cpu_reg: true,
                ..self
            },
            Some(DebuggerCommand::STEP) => DebugView {
                cmd: self.rest(),
                debugger_state: DebuggerState::STEP,
                display_cpu_reg: true,
                ..self
            },
            _ => DebugView { cmd: self.rest(), display_cpu_reg: false, ..self },
        }
    }

    /// The processor, having ended at `pc`, stands on the breakpoint.
    pub open spec fn breaks_at(self, pc: u16) -> bool {
        self.break_enabled && self.breakpoint == pc
    }

    /// The debugger after the processor has carried out an order and ended
    /// at `pc`. A running debugger takes the oldest command off its queue
    /// and halts on the breakpoint or on `HALT`; a stepping one halts.
    pub open spec fn stepped(self, pc: u16) -> DebugView {
        match self.debugger_state {
            DebuggerState::HALT => self,
            DebuggerState::RUN => if self.breaks_at(pc) || self.head() == Some(
                DebuggerCommand::HALT,
            ) {
                DebugView {
                    cmd: self.rest(),
                    debugger_state: DebuggerState::HALT,
                    display_cpu_reg: true,
                    ..self
                }
            } else {
                DebugView { cmd: self.rest(), ..self }
            },
            DebuggerState::STEP => DebugView { debugger_state: DebuggerState::HALT, ..self },
        }
    }

    /// The debugger with the tile viewer drawn afresh from `gpu`.
    pub open spec fn refreshed(self, gpu: GpuView) -> DebugView {
        DebugView {
            vram_viewer_buffer: Seq::new(24576, |index: int| viewer_pixel(gpu, index)),
            ..self
        }
    }
}

/// The debugger.
pub struct DebugCtx {
    pub cmd: Vec<DebuggerCommand>,
    pub breakpoint: u16,
    pub break_enabled: bool,
    pub debugger_state: DebuggerState,
    pub display_cpu_reg: bool,
    pub vram_viewer_buffer: [u32; 24576],
}

impl DebugCtx {
    pub open spec fn view(&self) -> DebugView {
        DebugView {
            cmd: self.cmd@,
            breakpoint: self.breakpoint,
            break_enabled: self.break_enabled,
            debugger_state: self.debugger_state,
            display_cpu_reg: self.display_cpu_reg,
            vram_viewer_buffer: self.vram_viewer_buffer@,
        }
    }

    /// A halted debugger with an empty queue, no breakpoint and a black
    /// viewer, about to show the registers.
    pub fn new() -> (dbg_ctx: DebugCtx)
        ensures
            dbg_ctx@ == (DebugView {
                cmd: Seq::empty(),
                breakpoint: 0,
                break_enabled: false,
                debugger_state: DebuggerState::HALT,
                display_cpu_reg: true,
                vram_viewer_buffer: Seq::new(24576, |i: int| 0u32),
            }),
    {
        let dbg_ctx = DebugCtx {
            cmd: Vec::new(),
            breakpoint: 0,
            break_enabled: false,
            debugger_state: DebuggerState::HALT,
            display_cpu_reg: true,
            vram_viewer_buffer: [0; 24576],
        };
        assert(dbg_ctx@.vram_viewer_buffer =~= Seq::new(24576, |i: int| 0u32));
        dbg_ctx
    }

    /// Queues a command behind those already waiting.
    pub fn post_debug_command(&mut self, command: DebuggerCommand)
        ensures
            final(self)@ == (DebugView { cmd: old(self)@.cmd.push(command), ..old(self)@ }),
    {
        self.cmd.push(command);
    }

    /// Sets the address of the breakpoint and switches it on or off.
    pub fn set_breakpoint(&mut self, address: u16, enabled: bool)
        ensures
            final(self)@ == (DebugView {
                breakpoint: address,
                break_enabled: enabled,
                ..old(self)@
            }),
    {
        self.breakpoint = address;
        self.break_enabled = enabled;
    }

    /// Takes the oldest command off the queue.
    pub fn take_command(&mut self) -> (command: Option<DebuggerCommand>)
        ensures
            command == old(self)@.head(),
            final(self)@ == (DebugView { cmd: old(self)@.rest(), ..old(self)@ }),
    {
        if self.cmd.len() > 0 {
            Some(self.cmd.remove(0))
        } else {
            None
        }
    }

    /// Draws the tile viewer afresh from video memory.
    pub fn refresh_vram_viewer(&mut self, gpu: &Gpu)
        ensures
            final(self)@ == old(self)@.refreshed(gpu@),
    {
        gpu.use_invariant();
        let mut index: usize = 0;
        while index < 24576
            invariant
                index <= 24576,
                gpu@.wf(),
                self@ == (DebugView { vram_viewer_buffer: self@.vram_viewer_buffer, ..old(self)@ }),
                forall|i: int|
                    0 <= i < index ==> #[trigger] self.vram_viewer_buffer@[i] == viewer_pixel(
                        gpu@,
                        i,
                    ),
            decreases 24576 - index,
        {
            let y: usize = index / VIEWER_WIDTH;
            let x: usize = index % VIEWER_WIDTH;
            let tile: usize = (y / 8) * 16 + x / 8;
            let row: usize = tile * 16 + (y % 8) * 2;
            let low: u8 = gpu.read_vram(row as u16);
            let high: u8 = gpu.read_vram((row + 1) as u16);
            let color: u8 = decode_plane_pixel(low, high, (x % 8) as u8);
            let grey: u32 = gpu.get_bg_pixel_color_from_palette(color) as u32;
            self.vram_viewer_buffer[index] = 0xFF00_0000u32 | (grey << 16u32) | (grey << 8u32)
                | grey;
            index = index + 1;
        }
        assert(self@.vram_viewer_buffer =~= old(self)@.refreshed(gpu@).vram_viewer_buffer);
    }
}

/// One transition of the frame loop under the debugger.
pub fn run_debug_mode(emulator: &mut Emulator, dbg_ctx: &mut DebugCtx) -> (action: Action)
    ensures
        debug_mode_outcome(
            *old(emulator),
            old(dbg_ctx)@,
            *final(emulator),
            final(dbg_ctx)@,
            action,
        ),
{
    match emulator.state {
        EmulatorState::GetTime => {
            emulator.frame_tick = instant_now();
            emulator.state = EmulatorState::RunMachine;
            Action::Idle
        },
        EmulatorState::RunMachine => {
            match dbg_ctx.debugger_state {
                DebuggerState::HALT => {
                    let action = if dbg_ctx.display_cpu_reg {
                        Action::ShowRegisters
                    } else {
                        Action::Idle
                    };
                    dbg_ctx.display_cpu_reg = false;
                    match dbg_ctx.take_command() {
                        Some(DebuggerCommand::RUN) => {
                            dbg_ctx.display_cpu_reg = true;
                            dbg_ctx.debugger_state = DebuggerState::RUN;
                        },
                        Some(DebuggerCommand::STEP) => {
                            dbg_ctx.display_cpu_reg = true;
                            dbg_ctx.debugger_state = DebuggerState::STEP;
                        },
                        _ => {},
                    }
                    action
                },
                DebuggerState::RUN => Action::Cpu(emulator.soc.schedule()),
                DebuggerState::STEP => Action::Cpu(emulator.soc.schedule()),
            }
        },
        EmulatorState::WaitNextFrame => {
            emulator.state = wait_next_frame(&emulator.frame_tick);
            Action::Idle
        },
        EmulatorState::DisplayFrame => {
            emulator.cycles_elapsed_in_frame = 0;
            emulator.state = EmulatorState::GetTime;
            emulator.soc.peripheral.refresh_viewer(dbg_ctx);
            Action::Idle
        },
    }
}

/// Accounts, under the debugger, for an order that the processor has
/// carried out and that left it at `pc`: the machine steps, then the
/// debugger halts if it has to.
pub fn step_debug_mode(
    emulator: &mut Emulator,
    dbg_ctx: &mut DebugCtx,
    order: CpuOrder,
    instruction_cycles: u8,
    pc: u16,
)
    ensures
        accounted(*old(emulator), *final(emulator), order.cost(instruction_cycles)),
        final(dbg_ctx)@ == old(dbg_ctx)@.stepped(pc),
{
    emulator.step(order, instruction_cycles);
    match dbg_ctx.debugger_state {
        DebuggerState::HALT => {},
        DebuggerState::RUN => {
            if dbg_ctx.break_enabled && dbg_ctx.breakpoint == pc {
                dbg_ctx.display_cpu_reg = true;
                dbg_ctx.debugger_state = DebuggerState::HALT;
            }
            match dbg_ctx.take_command() {
                Some(DebuggerCommand::HALT) => {
                    dbg_ctx.display_cpu_reg = true;
                    dbg_ctx.debugger_state = DebuggerState::HALT;
                },
                _ => {},
            }
        },
        DebuggerState::STEP => {
            dbg_ctx.debugger_state = DebuggerState::HALT;
        },
    }
}

} // verus!
