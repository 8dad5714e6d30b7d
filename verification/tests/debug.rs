use qoboy::debug::{
    run_debug_mode, step_debug_mode, DebugCtx, DebuggerCommand, DebuggerState, VIEWER_LENGTH,
};
use qoboy::emulator::{run_normal_mode, Action, Emulator, EmulatorState};
use qoboy::soc::peripheral::IoAccess;
use qoboy::soc::CpuOrder;

fn make_emulator(debug_on: bool) -> Emulator {
    let mut rom = vec![0x00u8; 0x8000];
    rom[0x0147] = 0x00;
    Emulator::new(&vec![0u8; 256], &rom, debug_on)
}

fn running_emulator() -> Emulator {
    let mut emulator = make_emulator(true);
    emulator.state = EmulatorState::RunMachine;
    emulator
}

#[test]
fn debugger_starts_halted() {
    let dbg_ctx = DebugCtx::new();
    assert_eq!(dbg_ctx.debugger_state, DebuggerState::HALT);
    assert_eq!(dbg_ctx.display_cpu_reg, true);
    assert_eq!(dbg_ctx.break_enabled, false);
    assert_eq!(dbg_ctx.breakpoint, 0);
    assert_eq!(dbg_ctx.cmd.len(), 0);
    assert_eq!(dbg_ctx.vram_viewer_buffer.len(), VIEWER_LENGTH);
    assert_eq!(dbg_ctx.vram_viewer_buffer[0], 0);
}

#[test]
fn debugger_queue_is_first_in_first_out() {
    let mut dbg_ctx = DebugCtx::new();
    assert_eq!(dbg_ctx.take_command(), None);
    dbg_ctx.post_debug_command(DebuggerCommand::STEP);
    dbg_ctx.post_debug_command(DebuggerCommand::RUN);
    dbg_ctx.post_debug_command(DebuggerCommand::HALT);
    assert_eq!(dbg_ctx.take_command(), Some(DebuggerCommand::STEP));
    assert_eq!(dbg_ctx.take_command(), Some(DebuggerCommand::RUN));
    assert_eq!(dbg_ctx.take_command(), Some(DebuggerCommand::HALT));
    assert_eq!(dbg_ctx.take_command(), None);
}

#[test]
fn debugger_breakpoint_registers() {
    let mut dbg_ctx = DebugCtx::new();
    dbg_ctx.set_breakpoint(0x0150, true);
    assert_eq!(dbg_ctx.breakpoint, 0x0150);
    assert_eq!(dbg_ctx.break_enabled, true);
    dbg_ctx.set_breakpoint(0x0150, false);
    assert_eq!(dbg_ctx.break_enabled, false);
}

#[test]
fn halted_debugger_holds_the_machine_and_shows_registers_once() {
    let mut emulator = running_emulator();
    let mut dbg_ctx = DebugCtx::new();
    assert_eq!(emulator.run(&mut dbg_ctx), Action::ShowRegisters);
    assert_eq!(dbg_ctx.display_cpu_reg, false);
    assert_eq!(emulator.run(&mut dbg_ctx), Action::Idle);
    assert_eq!(emulator.run(&mut dbg_ctx), Action::Idle);
    assert_eq!(emulator.state, EmulatorState::RunMachine);
    assert_eq!(dbg_ctx.debugger_state, DebuggerState::HALT);
    assert_eq!(emulator.cycles_elapsed_in_frame, 0);
}

#[test]
fn halted_debugger_drops_a_halt_command() {
    let mut emulator = running_emulator();
    let mut dbg_ctx = DebugCtx::new();
    dbg_ctx.post_debug_command(DebuggerCommand::HALT);
    dbg_ctx.post_debug_command(DebuggerCommand::RUN);
    assert_eq!(run_debug_mode(&mut emulator, &mut dbg_ctx), Action::ShowRegisters);
    assert_eq!(dbg_ctx.debugger_state, DebuggerState::HALT);
    assert_eq!(dbg_ctx.display_cpu_reg, false);
    assert_eq!(dbg_ctx.cmd.len(), 1);
    assert_eq!(run_debug_mode(&mut emulator, &mut dbg_ctx), Action::Idle);
    assert_eq!(dbg_ctx.debugger_state, DebuggerState::RUN);
    assert_eq!(dbg_ctx.display_cpu_reg, true);
    assert_eq!(dbg_ctx.cmd.len(), 0);
}

#[test]
fn run_command_lets_the_machine_run_until_halt() {
    let mut emulator = running_emulator();
    let mut dbg_ctx = DebugCtx::new();
    dbg_ctx.post_debug_command(DebuggerCommand::RUN);
    emulator.run(&mut dbg_ctx);
    assert_eq!(dbg_ctx.debugger_state, DebuggerState::RUN);
    for _ in 0..3 {
        let action = emulator.run(&mut dbg_ctx);
        assert_eq!(action, Action::Cpu(CpuOrder::Execute { wake: false }));
        emulator.retire(&mut dbg_ctx, CpuOrder::Execute { wake: false }, 4, 0x0100);
        assert_eq!(dbg_ctx.debugger_state, DebuggerState::RUN);
    }
    assert_eq!(emulator.cycles_elapsed_in_frame, 12);
    dbg_ctx.post_debug_command(DebuggerCommand::HALT);
    emulator.run(&mut dbg_ctx);
    emulator.retire(&mut dbg_ctx, CpuOrder::Execute { wake: false }, 4, 0x0100);
    assert_eq!(dbg_ctx.debugger_state, DebuggerState::HALT);
    assert_eq!(dbg_ctx.display_cpu_reg, true);
    assert_eq!(emulator.cycles_elapsed_in_frame, 16);
    assert_eq!(emulator.run(&mut dbg_ctx), Action::ShowRegisters);
}

#[test]
fn running_debugger_drops_commands_other_than_halt() {
    let mut emulator = running_emulator();
    let mut dbg_ctx = DebugCtx::new();
    dbg_ctx.debugger_state = DebuggerState::RUN;
    dbg_ctx.display_cpu_reg = false;
    dbg_ctx.post_debug_command(DebuggerCommand::STEP);
    dbg_ctx.post_debug_command(DebuggerCommand::HALT);
    step_debug_mode(&mut emulator, &mut dbg_ctx, CpuOrder::Execute { wake: false }, 4, 0);
    assert_eq!(dbg_ctx.debugger_state, DebuggerState::RUN);
    assert_eq!(dbg_ctx.display_cpu_reg, false);
    assert_eq!(dbg_ctx.cmd.len(), 1);
    step_debug_mode(&mut emulator, &mut dbg_ctx, CpuOrder::Execute { wake: false }, 4, 0);
    assert_eq!(dbg_ctx.debugger_state, DebuggerState::HALT);
    assert_eq!(dbg_ctx.cmd.len(), 0);
}

#[test]
fn breakpoint_halts_a_running_debugger() {
    let mut emulator = running_emulator();
    let mut dbg_ctx = DebugCtx::new();
    dbg_ctx.debugger_state = DebuggerState::RUN;
    dbg_ctx.display_cpu_reg = false;
    dbg_ctx.set_breakpoint(0x0234, true);
    emulator.retire(&mut dbg_ctx, CpuOrder::Execute { wake: false }, 4, 0x0233);
    assert_eq!(dbg_ctx.debugger_state, DebuggerState::RUN);
    emulator.retire(&mut dbg_ctx, CpuOrder::Execute { wake: false }, 4, 0x0234);
    assert_eq!(dbg_ctx.debugger_state, DebuggerState::HALT);
    assert_eq!(dbg_ctx.display_cpu_reg, true);
}

#[test]
fn disabled_breakpoint_does_not_halt() {
    let mut emulator = running_emulator();
    let mut dbg_ctx = DebugCtx::new();
    dbg_ctx.debugger_state = DebuggerState::RUN;
    dbg_ctx.set_breakpoint(0x0234, false);
    emulator.retire(&mut dbg_ctx, CpuOrder::Execute { wake: false }, 4, 0x0234);
    assert_eq!(dbg_ctx.debugger_state, DebuggerState::RUN);
}

#[test]
fn step_command_runs_one_order_then_halts() {
    let mut emulator = running_emulator();
    let mut dbg_ctx = DebugCtx::new();
    dbg_ctx.post_debug_command(DebuggerCommand::STEP);
    assert_eq!(emulator.run(&mut dbg_ctx), Action::ShowRegisters);
    assert_eq!(dbg_ctx.debugger_state, DebuggerState::STEP);
    let action = emulator.run(&mut dbg_ctx);
    assert_eq!(action, Action::Cpu(CpuOrder::Execute { wake: false }));
    emulator.retire(&mut dbg_ctx, CpuOrder::Execute { wake: false }, 3, 0x0101);
    assert_eq!(dbg_ctx.debugger_state, DebuggerState::HALT);
    assert_eq!(emulator.cycles_elapsed_in_frame, 3);
    assert_eq!(emulator.run(&mut dbg_ctx), Action::ShowRegisters);
    assert_eq!(emulator.run(&mut dbg_ctx), Action::Idle);
}

#[test]
fn debugger_is_left_alone_without_debug_mode() {
    let mut emulator = make_emulator(false);
    emulator.state = EmulatorState::RunMachine;
    let mut dbg_ctx = DebugCtx::new();
    dbg_ctx.post_debug_command(DebuggerCommand::HALT);
    dbg_ctx.set_breakpoint(0x0100, true);
    let action = emulator.run(&mut dbg_ctx);
    assert_eq!(action, Action::Cpu(CpuOrder::Execute { wake: false }));
    emulator.retire(&mut dbg_ctx, CpuOrder::Execute { wake: false }, 4, 0x0100);
    assert_eq!(dbg_ctx.debugger_state, DebuggerState::HALT);
    assert_eq!(dbg_ctx.display_cpu_reg, true);
    assert_eq!(dbg_ctx.cmd.len(), 1);
    assert_eq!(emulator.cycles_elapsed_in_frame, 4);
    assert_eq!(run_normal_mode(&mut emulator, &mut dbg_ctx), action);
}

#[test]
fn frame_loop_under_the_debugger_takes_time_and_waits() {
    let mut emulator = make_emulator(true);
    let mut dbg_ctx = DebugCtx::new();
    assert_eq!(emulator.run(&mut dbg_ctx), Action::Idle);
    assert_eq!(emulator.state, EmulatorState::RunMachine);
    dbg_ctx.debugger_state = DebuggerState::RUN;
    emulator.cycles_elapsed_in_frame = 70223;
    emulator.retire(&mut dbg_ctx, CpuOrder::Execute { wake: false }, 1, 0);
    assert_eq!(emulator.state, EmulatorState::WaitNextFrame);
    while emulator.state == EmulatorState::WaitNextFrame {
        assert_eq!(emulator.run(&mut dbg_ctx), Action::Idle);
    }
    assert_eq!(emulator.state, EmulatorState::DisplayFrame);
    assert_eq!(emulator.run(&mut dbg_ctx), Action::Idle);
    assert_eq!(emulator.state, EmulatorState::GetTime);
}

#[test]
fn tile_viewer_is_refreshed_when_a_frame_has_been_shown() {
    let mut emulator = make_emulator(true);
    let mut dbg_ctx = DebugCtx::new();
    // video memory is all 0xFF: colour 3 everywhere
    emulator.soc.peripheral.write(0xFF47, 0xE4);
    // tile 17, row 2: colours 3 2 1 0 3 2 1 0
    emulator.soc.peripheral.write(0x8000 + 17 * 16 + 4, 0xAA);
    emulator.soc.peripheral.write(0x8000 + 17 * 16 + 5, 0xCC);
    emulator.state = EmulatorState::DisplayFrame;
    assert_eq!(emulator.run(&mut dbg_ctx), Action::Idle);
    assert_eq!(emulator.state, EmulatorState::GetTime);
    assert_eq!(dbg_ctx.vram_viewer_buffer[0], 0xFF00_0000);
    assert_eq!(dbg_ctx.vram_viewer_buffer[24575], 0xFF00_0000);
    // tile 17 is the second tile of the second row of tiles
    let at = (8 + 2) * 128 + 8;
    assert_eq!(
        dbg_ctx.vram_viewer_buffer[at..at + 8],
        [
            0xFF00_0000,
            0xFF55_5555,
            0xFFAA_AAAA,
            0xFFFF_FFFF,
            0xFF00_0000,
            0xFF55_5555,
            0xFFAA_AAAA,
            0xFFFF_FFFF
        ]
    );
    assert_eq!(dbg_ctx.vram_viewer_buffer[at - 1], 0xFF00_0000);
    assert_eq!(dbg_ctx.vram_viewer_buffer[at + 8], 0xFF00_0000);
    assert_eq!(dbg_ctx.vram_viewer_buffer[at + 128], 0xFF00_0000);
}

#[test]
fn tile_viewer_follows_the_palette() {
    let mut emulator = make_emulator(true);
    let mut dbg_ctx = DebugCtx::new();
    emulator.soc.peripheral.write(0xFF47, 0x00);
    emulator.soc.peripheral.refresh_viewer(&mut dbg_ctx);
    assert_eq!(dbg_ctx.vram_viewer_buffer[1000], 0xFFFF_FFFF);
    emulator.soc.peripheral.write(0xFF47, 0x40);
    emulator.soc.peripheral.refresh_viewer(&mut dbg_ctx);
    assert_eq!(dbg_ctx.vram_viewer_buffer[1000], 0xFFAA_AAAA);
}
