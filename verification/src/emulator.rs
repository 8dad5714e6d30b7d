//! The frame loop: a four-state machine that the host polls, pacing the
//! emulated machine to the rate of the real one.

use vstd::prelude::*;
use std::time::Duration;
use std::time::Instant;
use crate::cartridge::{image_fills_banks, image_is_rom_only, image_supported};
use crate::debug::{run_debug_mode, step_debug_mode, DebugCtx};
use crate::soc::peripheral::keypad::Key;
use crate::soc::peripheral::model::PeripheralView;
use crate::soc::{nvic_after_order, order_for, CpuOrder, Soc};

verus! {

pub const SCREEN_HEIGHT: usize = 144;

pub const SCREEN_WIDTH: usize = 160;

/// Cycles that the machine runs between two frames.
pub const ONE_FRAME_IN_CYCLES: usize = 70224;

/// Nanoseconds between two frames: 70224 periods of the 4.194304 MHz clock.
pub const ONE_FRAME_IN_NS: usize = 16_742_706;

#[derive(Copy, Clone, PartialEq, Eq, Structural, Debug)]
pub enum EmulatorState {
    /// Take the time at which the frame starts.
    GetTime,
    /// Run the machine until it has used up the cycles of one frame.
    RunMachine,
    /// Wait until the time of one frame has gone by.
    WaitNextFrame,
    /// The frame can be shown.
    DisplayFrame,
}

/// What the host has to do after a call of `run`.
#[derive(Copy, Clone, PartialEq, Eq, Structural, Debug)]
pub enum Action {
    /// Nothing.
    Idle,
    /// Show the registers of the processor: the debugger has halted it.
    ShowRegisters,
    /// Have the processor carry out the order, then report with `retire`.
    Cpu(CpuOrder),
}

/// Why a pair of images cannot be run.
#[derive(Copy, Clone, PartialEq, Eq, Structural, Debug)]
pub enum ConfigurationError {
    /// The start-up program is not 256 bytes long.
    BadBootRomSize,
    /// The cartridge image is shorter than 32 KiB.
    BadRomSize,
    /// The cartridge needs a memory bank controller.
    UnsupportedMbc,
}

#[verifier::external_type_specification]
#[verifier::external_body]
pub struct ExInstant(Instant);

/// `std::time::Instant::now`: reads the monotonic clock. Nothing is claimed
/// of the instant that comes back.
#[verifier::external_body]
pub(crate) fn instant_now() -> (now: Instant) {
    Instant::now()
}

/// `std::time::Instant::elapsed`: the time that has gone by since `tick`.
/// Nothing is claimed of the duration that comes back.
#[verifier::external_body]
fn instant_elapsed(tick: &Instant) -> (elapsed: Duration) {
    tick.elapsed()
}

/// `std::time::Duration::as_nanos`: the duration in nanoseconds. Nothing is
/// claimed of the number that comes back.
#[verifier::external_body]
fn duration_as_nanos(duration: &Duration) -> (nanos: u128) {
    duration.as_nanos()
}

impl EmulatorState {
    /// The state that follows `WaitNextFrame` once `elapsed_ns` nanoseconds
    /// have gone by since the frame started: the frame is shown as soon as
    /// the time of one frame is over, and not before.
    pub fn after_wait(elapsed_ns: u128) -> (next: EmulatorState)
        ensures
            elapsed_ns >= 16_742_706 ==> next == EmulatorState::DisplayFrame,
            elapsed_ns < 16_742_706 ==> next == EmulatorState::WaitNextFrame,
    {
        if elapsed_ns >= ONE_FRAME_IN_NS as u128 {
            EmulatorState::DisplayFrame
        } else {
            EmulatorState::WaitNextFrame
        }
    }
}

/// The emulated machine and the state of the frame loop.
pub struct Emulator {
    pub soc: Soc,
    pub state: EmulatorState,
    /// Cycles that the machine has run in the frame under way.
    pub cycles_elapsed_in_frame: usize,
    /// When the frame under way started.
    pub frame_tick: Instant,
    /// The debugger decides when the machine runs.
    pub debug_on: bool,
}

/// Says whether a start-up program and a cartridge image can be run, and if
/// not what is wrong with them: the size of the start-up program is looked
/// at first, then the size of the image, then its header.
pub fn validate_images(boot_rom: &[u8], rom: &[u8]) -> (result: Result<(), ConfigurationError>)
    ensures
        result is Ok <==> boot_rom@.len() == 256 && image_supported(rom@),
        boot_rom@.len() != 256 ==> result == Err::<(), ConfigurationError>(
            ConfigurationError::BadBootRomSize,
        ),
        boot_rom@.len() == 256 && !image_fills_banks(rom@) ==> result == Err::<
            (),
            ConfigurationError,
        >(ConfigurationError::BadRomSize),
        boot_rom@.len() == 256 && image_fills_banks(rom@) && !image_is_rom_only(rom@) ==> result
            == Err::<(), ConfigurationError>(ConfigurationError::UnsupportedMbc),
{
    if boot_rom.len() != 256 {
        Err(ConfigurationError::BadBootRomSize)
    } else if rom.len() < 0x8000 {
        Err(ConfigurationError::BadRomSize)
    } else if rom[0x0147] != 0x00 {
        Err(ConfigurationError::UnsupportedMbc)
    } else {
        Ok(())
    }
}

impl Emulator {
    /// A machine at power-on, about to take the time of its first frame.
    pub fn new(boot_rom: &[u8], rom: &[u8], debug_on: bool) -> (emulator: Emulator)
        requires
            boot_rom@.len() == 256,
            image_supported(rom@),
        ensures
            emulator.state == EmulatorState::GetTime,
            emulator.cycles_elapsed_in_frame == 0,
            emulator.debug_on == debug_on,
            emulator.soc.peripheral@.wf(),
            emulator.soc.peripheral@.is_power_on(),
            emulator.soc.peripheral@.boot_rom.data == boot_rom@,
            emulator.soc.peripheral@.cartridge.rom@ == rom@.subrange(0, 0x8000),
    {
        Emulator {
            soc: Soc::new(boot_rom, rom),
            state: EmulatorState::GetTime,
            cycles_elapsed_in_frame: 0,
            frame_tick: instant_now(),
            debug_on: debug_on,
        }
    }

    /// Advances the frame loop by one transition, under the debugger or
    /// not as the machine was made, and says what the host has to do.
    pub fn run(&mut self, dbg_ctx: &mut DebugCtx) -> (action: Action)
        ensures
            old(self).debug_on ==> debug_mode_outcome(
                *old(self),
                old(dbg_ctx)@,
                *final(self),
                final(dbg_ctx)@,
                action,
            ),
            !old(self).debug_on ==> normal_mode_outcome(*old(self), *final(self), action)
                && *final(dbg_ctx) == *old(dbg_ctx),
    {
        if self.debug_on {
            run_debug_mode(self, dbg_ctx)
        } else {
            run_normal_mode(self, dbg_ctx)
        }
    }

    /// Accounts for an order that the processor has carried out. The
    /// peripherals run for the cycles it took; when the cycles of one frame
    /// are used up the count starts again and the machine waits for the
    /// frame time to pass.
    pub fn step(&mut self, order: CpuOrder, instruction_cycles: u8)
        ensures
            accounted(*old(self), *final(self), order.cost(instruction_cycles)),
    {
        let cycles: u8 = self.soc.run(order, instruction_cycles);
        if self.cycles_elapsed_in_frame >= ONE_FRAME_IN_CYCLES - cycles as usize {
            self.cycles_elapsed_in_frame = 0;
            self.state = EmulatorState::WaitNextFrame;
        } else {
            self.cycles_elapsed_in_frame = self.cycles_elapsed_in_frame + cycles as usize;
        }
    }

    /// Reports an order that the processor has carried out, with the cycles
    /// of the instruction and the program counter it ended at. Under the
    /// debugger the breakpoint and the command queue are looked at as well.
    pub fn retire(
        &mut self,
        dbg_ctx: &mut DebugCtx,
        order: CpuOrder,
        instruction_cycles: u8,
        pc: u16,
    )
        ensures
            accounted(*old(self), *final(self), order.cost(instruction_cycles)),
            old(self).debug_on ==> final(dbg_ctx)@ == old(dbg_ctx)@.stepped(pc),
            !old(self).debug_on ==> *final(dbg_ctx) == *old(dbg_ctx),
    {
        if self.debug_on {
            step_debug_mode(self, dbg_ctx, order, instruction_cycles, pc);
        } else {
            self.step(order, instruction_cycles);
        }
    }

    /// A frame is ready to be shown.
    pub fn frame_ready(&self) -> (ready: bool)
        ensures
            ready == (self.state == EmulatorState::DisplayFrame),
    {
        self.state == EmulatorState::DisplayFrame
    }

    /// The colour index, 0 to 3, of a pixel of the frame, row-major from
    /// the top left.
    pub fn get_frame_buffer(&self, pixel_index: usize) -> (color: u8)
        requires
            pixel_index < 23040,
        ensures
            color == self.soc.peripheral@.gpu.frame[pixel_index as int],
            color <= 3,
    {
        self.soc.get_frame_buffer(pixel_index)
    }

    /// Records that `key` is now held or released.
    pub fn set_key(&mut self, key: Key, pressed: bool)
        ensures
            final(self).soc.peripheral@ == old(self).soc.peripheral@.after_key(key, pressed),
            final(self).state == old(self).state,
            final(self).cycles_elapsed_in_frame == old(self).cycles_elapsed_in_frame,
            final(self).frame_tick == old(self).frame_tick,
            final(self).debug_on == old(self).debug_on,
    {
        self.soc.peripheral.set_key(key, pressed);
    }
}

/// The emulator has accounted for `cycles` machine cycles that the
/// processor took: the peripherals have run for them, and they count
/// towards the frame. When the 70224 cycles of a frame are reached the count
/// starts again and the emulator waits for the frame time to pass.
pub open spec fn accounted(before: Emulator, after: Emulator, cycles: u8) -> bool {
    &&& after.soc.peripheral@ == before.soc.peripheral@.after_run(cycles)
    &&& after.frame_tick == before.frame_tick
    &&& after.debug_on == before.debug_on
    &&& after.cycles_elapsed_in_frame == if before.cycles_elapsed_in_frame + cycles >= 70224 {
        0
    } else {
        before.cycles_elapsed_in_frame + cycles
    }
    &&& after.state == if before.cycles_elapsed_in_frame + cycles >= 70224 {
        EmulatorState::WaitNextFrame
    } else {
        before.state
    }
}

/// The emulator took the time and is about to run the machine.
pub open spec fn took_time(before: Emulator, after: Emulator) -> bool {
    after == (Emulator {
        state: EmulatorState::RunMachine,
        frame_tick: after.frame_tick,
        ..before
    })
}

/// The emulator looked at the clock while waiting: it goes on waiting or
/// the frame is shown, and nothing else changes.
pub open spec fn waited(before: Emulator, after: Emulator) -> bool {
    &&& after == (Emulator { state: after.state, ..before })
    &&& after.state == EmulatorState::WaitNextFrame || after.state == EmulatorState::DisplayFrame
}

/// The frame has been shown: the count of cycles starts again and the time
/// is taken next.
pub open spec fn shown(before: Emulator, after: Emulator) -> bool {
    after == (Emulator { state: EmulatorState::GetTime, cycles_elapsed_in_frame: 0, ..before })
}

/// The emulator has decided what the processor does next.
pub open spec fn scheduled(before: Emulator, after: Emulator, action: Action) -> bool {
    &&& action == Action::Cpu(order_for(before.soc.peripheral@.nvic))
    &&& after.soc.peripheral@ == (PeripheralView {
        nvic: nvic_after_order(before.soc.peripheral@.nvic),
        ..before.soc.peripheral@
    })
    &&& after.state == before.state
    &&& after.cycles_elapsed_in_frame == before.cycles_elapsed_in_frame
    &&& after.frame_tick == before.frame_tick
    &&& after.debug_on == before.debug_on
}

/// What one transition of the frame loop does without the debugger.
pub open spec fn normal_mode_outcome(before: Emulator, after: Emulator, action: Action) -> bool {
    match before.state {
        EmulatorState::GetTime => took_time(before, after) && action == Action::Idle,
        EmulatorState::RunMachine => scheduled(before, after, action),
        EmulatorState::WaitNextFrame => waited(before, after) && action == Action::Idle,
        EmulatorState::DisplayFrame => shown(before, after) && action == Action::Idle,
    }
}

/// What one transition of the frame loop does under the debugger: as
/// without it, but that a halted debugger holds the machine back and polls
/// its command queue instead, and that the tile viewer is refreshed when a
/// frame has been shown.
pub open spec fn debug_mode_outcome(
    before: Emulator,
    debug_before: crate::debug::DebugView,
    after: Emulator,
    debug_after: crate::debug::DebugView,
    action: Action,
) -> bool {
    match before.state {
        EmulatorState::GetTime => took_time(before, after) && action == Action::Idle
            && debug_after == debug_before,
        EmulatorState::RunMachine => if debug_before.debugger_state
            == crate::debug::DebuggerState::HALT {
            &&& after == before
            &&& debug_after == debug_before.polled()
            &&& action == if debug_before.display_cpu_reg {
                Action::ShowRegisters
            } else {
                Action::Idle
            }
        } else {
            scheduled(before, after, action) && debug_after == debug_before
        },
        EmulatorState::WaitNextFrame => waited(before, after) && action == Action::Idle
            && debug_after == debug_before,
        EmulatorState::DisplayFrame => {
            &&& shown(before, after)
            &&& action == Action::Idle
            &&& debug_after == debug_before.refreshed(before.soc.peripheral@.gpu)
        },
    }
}

/// One transition of the frame loop without the debugger.
pub fn run_normal_mode(emulator: &mut Emulator, dbg_ctx: &mut DebugCtx) -> (action: Action)
    ensures
        normal_mode_outcome(*old(emulator), *final(emulator), action),
        *final(dbg_ctx) == *old(dbg_ctx),
{
    match emulator.state {
        EmulatorState::GetTime => {
            emulator.frame_tick = instant_now();
            emulator.state = EmulatorState::RunMachine;
            Action::Idle
        },
        EmulatorState::RunMachine => Action::Cpu(emulator.soc.schedule()),
        EmulatorState::WaitNextFrame => {
            emulator.state = wait_next_frame(&emulator.frame_tick);
            Action::Idle
        },
        EmulatorState::DisplayFrame => {
            emulator.cycles_elapsed_in_frame = 0;
            emulator.state = EmulatorState::GetTime;
            Action::Idle
        },
    }
}

/// Looks at the clock: the state that follows `WaitNextFrame` when the
/// frame started at `frame_tick`.
pub fn wait_next_frame(frame_tick: &Instant) -> (next: EmulatorState)
    ensures
        next == EmulatorState::WaitNextFrame || next == EmulatorState::DisplayFrame,
{
    let elapsed: Duration = instant_elapsed(frame_tick);
    EmulatorState::after_wait(duration_as_nanos(&elapsed))
}

/// The order of the frame loop. A frame is shown only out of the wait for
/// it, and the wait ends only by the frame being shown; after a frame the
/// time is taken, and then the machine runs. The loop itself never leaves
/// the running of the machine: that is for `step`, when the cycles of a
/// frame are used up.
pub proof fn lemma_frame_loop_order(before: Emulator, after: Emulator, action: Action)
    requires
        normal_mode_outcome(before, after, action),
    ensures
        before.state == EmulatorState::GetTime ==> after.state == EmulatorState::RunMachine,
        before.state == EmulatorState::RunMachine ==> after.state == EmulatorState::RunMachine,
        before.state == EmulatorState::WaitNextFrame ==> after.state
            == EmulatorState::WaitNextFrame || after.state == EmulatorState::DisplayFrame,
        before.state == EmulatorState::DisplayFrame ==> after.state == EmulatorState::GetTime,
        after.state == EmulatorState::DisplayFrame ==> before.state
            == EmulatorState::WaitNextFrame,
        before.state != EmulatorState::DisplayFrame ==> after.cycles_elapsed_in_frame
            == before.cycles_elapsed_in_frame,
        before.state == EmulatorState::DisplayFrame ==> after.cycles_elapsed_in_frame == 0,
        action is Cpu <==> before.state == EmulatorState::RunMachine,
{
}

} // verus!
