use qoboy::soc::nvic::Nvic;
use qoboy::soc::peripheral::timer::Timer;

#[test]
fn timer_starts_stopped_and_zero() {
    let timer = Timer::new();
    assert_eq!(timer.get_divider(), 0);
    assert_eq!(timer.get_value(), 0);
    assert_eq!(timer.get_modulo(), 0);
    assert_eq!(timer.settings_to_byte(), 0xF8);
}

#[test]
fn timer_overflow_reloads_modulo_and_raises_timer() {
    let mut timer = Timer::new();
    let mut nvic = Nvic::new();
    timer.set_modulo(0xF0);
    timer.settings_from_byte(0x05);
    timer.set_value(0xF0);
    for _ in 0..63 {
        timer.run(1, &mut nvic);
    }
    // 252 clock periods at one increment per 16: fifteen increments
    assert_eq!(timer.get_value(), 0xFF);
    assert_eq!(nvic.interrupt_flag, 0x00);
    timer.run(1, &mut nvic);
    assert_eq!(timer.get_value(), 0xF0);
    assert_eq!(nvic.interrupt_flag, 0x04);
}

#[test]
fn timer_counts_once_per_period_of_each_rate() {
    // (control byte, machine cycles for one increment)
    let rates: [(u8, u32); 4] = [(0x04, 256), (0x05, 4), (0x06, 16), (0x07, 64)];
    for (control, cycles) in rates {
        let mut timer = Timer::new();
        let mut nvic = Nvic::new();
        timer.settings_from_byte(control);
        for _ in 0..cycles - 1 {
            timer.run(1, &mut nvic);
        }
        assert_eq!(timer.get_value(), 0, "control {:#04x}", control);
        timer.run(1, &mut nvic);
        assert_eq!(timer.get_value(), 1, "control {:#04x}", control);
        for _ in 0..cycles {
            timer.run(1, &mut nvic);
        }
        assert_eq!(timer.get_value(), 2, "control {:#04x}", control);
        assert_eq!(nvic.interrupt_flag, 0);
    }
}

#[test]
fn timer_disabled_does_not_count() {
    let mut timer = Timer::new();
    let mut nvic = Nvic::new();
    timer.settings_from_byte(0x01);
    timer.run(255, &mut nvic);
    timer.run(255, &mut nvic);
    assert_eq!(timer.get_value(), 0);
    assert_eq!(nvic.interrupt_flag, 0);
}

#[test]
fn timer_long_run_counts_every_increment() {
    let mut timer = Timer::new();
    let mut nvic = Nvic::new();
    timer.settings_from_byte(0x05);
    // 1020 clock periods: 63 multiples of 16 are reached
    timer.run(255, &mut nvic);
    assert_eq!(timer.get_value(), 63);
    // 4 more periods reach 1024, the 64th multiple
    timer.run(1, &mut nvic);
    assert_eq!(timer.get_value(), 64);
}

#[test]
fn timer_overflows_several_times_in_one_run() {
    let mut timer = Timer::new();
    let mut nvic = Nvic::new();
    timer.set_modulo(0xFE);
    timer.set_value(0xFE);
    timer.settings_from_byte(0x05);
    // 40 increments from 0xFE with reload 0xFE: the counter alternates
    timer.run(160, &mut nvic);
    assert_eq!(timer.get_value(), 0xFE);
    assert_eq!(nvic.interrupt_flag, 0x04);
    timer.run(4, &mut nvic);
    assert_eq!(timer.get_value(), 0xFF);
}

#[test]
fn divider_runs_at_one_step_per_64_machine_cycles() {
    let mut timer = Timer::new();
    let mut nvic = Nvic::new();
    timer.run(63, &mut nvic);
    assert_eq!(timer.get_divider(), 0);
    timer.run(1, &mut nvic);
    assert_eq!(timer.get_divider(), 1);
    timer.run(128, &mut nvic);
    assert_eq!(timer.get_divider(), 3);
}

#[test]
fn divider_wraps_after_256_steps() {
    let mut timer = Timer::new();
    let mut nvic = Nvic::new();
    for _ in 0..255 {
        timer.run(64, &mut nvic);
    }
    assert_eq!(timer.get_divider(), 255);
    timer.run(64, &mut nvic);
    assert_eq!(timer.get_divider(), 0);
}

#[test]
fn divider_write_resets_the_counter_and_the_phase() {
    let mut timer = Timer::new();
    let mut nvic = Nvic::new();
    timer.settings_from_byte(0x05);
    timer.run(3, &mut nvic);
    timer.set_divider();
    assert_eq!(timer.get_divider(), 0);
    // the next increment is a full period away again
    timer.run(3, &mut nvic);
    assert_eq!(timer.get_value(), 0);
    timer.run(1, &mut nvic);
    assert_eq!(timer.get_value(), 1);
}

#[test]
fn timer_control_keeps_three_bits() {
    let mut timer = Timer::new();
    timer.settings_from_byte(0xFF);
    assert_eq!(timer.tac, 0x07);
    assert_eq!(timer.settings_to_byte(), 0xFF);
    timer.settings_from_byte(0xF8);
    assert_eq!(timer.tac, 0x00);
    assert_eq!(timer.settings_to_byte(), 0xF8);
}

#[test]
fn timer_keeps_time_however_the_cycles_are_split() {
    let mut whole = Timer::new();
    let mut split = Timer::new();
    let mut nvic_whole = Nvic::new();
    let mut nvic_split = Nvic::new();
    for timer in [&mut whole, &mut split] {
        timer.set_modulo(0xFA);
        timer.set_value(0xFC);
        timer.settings_from_byte(0x05);
    }
    whole.run(200, &mut nvic_whole);
    split.run(3, &mut nvic_split);
    split.run(150, &mut nvic_split);
    split.run(47, &mut nvic_split);
    assert_eq!(whole.get_value(), split.get_value());
    assert_eq!(whole.get_divider(), split.get_divider());
    assert_eq!(whole.sys, 800);
    assert_eq!(split.sys, 800);
    // 50 increments from 0xFC with reload 0xFA: 4 to overflow, then 46 more
    // in rounds of 6
    assert_eq!(whole.get_value(), 0xFA + 4);
    assert_eq!(nvic_whole.interrupt_flag, 0x04);
    assert_eq!(nvic_split.interrupt_flag, 0x04);
}
