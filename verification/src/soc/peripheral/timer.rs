//! Divider and programmable timer.

use vstd::prelude::*;
use crate::soc::nvic::{InterruptSources, Nvic};

verus! {

/// The free-running system counter and the three timer registers. Every
/// value of the four fields is a legal state.
pub struct Timer {
    /// Clock periods since the divider was last reset, modulo 2^16.
    pub sys: u16,
    /// The counter register.
    pub tima: u8,
    /// The value reloaded into the counter when it overflows.
    pub tma: u8,
    /// Bit 2 enables counting; bits 1 and 0 select the rate.
    pub tac: u8,
}

/// Clock periods between two increments of the counter, for a control byte.
pub open spec fn period_of(tac: u8) -> int {
    if tac & 0x03 == 0 {
        1024
    } else if tac & 0x03 == 1 {
        16
    } else if tac & 0x03 == 2 {
        64
    } else {
        256
    }
}

/// The counter after `n` increments from `tima`, and whether it overflowed
/// on the way. An increment of 255 reloads `tma`.
pub open spec fn counted(tima: u8, tma: u8, n: nat) -> (u8, bool)
    decreases n,
{
    if n == 0 {
        (tima, false)
    } else {
        let before = counted(tima, tma, (n - 1) as nat);
        if before.0 == 255 {
            (tma, true)
        } else {
            ((before.0 + 1) as u8, before.1)
        }
    }
}

impl Timer {
    /// Counting is switched on.
    pub open spec fn enabled(self) -> bool {
        self.tac & 0x04 != 0
    }

    /// Increments that fall due while `cycles` machine cycles pass: one for
    /// every multiple of the period that the system counter reaches.
    pub open spec fn ticks(self, cycles: u8) -> nat {
        if self.enabled() {
            let period = period_of(self.tac);
            ((self.sys + 4 * cycles) / period - (self.sys as int) / period) as nat
        } else {
            0
        }
    }

    /// The counter overflows while `cycles` machine cycles pass.
    pub open spec fn overflows(self, cycles: u8) -> bool {
        counted(self.tima, self.tma, self.ticks(cycles)).1
    }

    /// The timer after `cycles` machine cycles, of four clock periods each.
    pub open spec fn after_run(self, cycles: u8) -> Timer {
        Timer {
            sys: ((self.sys + 4 * cycles) % 0x1_0000) as u16,
            tima: counted(self.tima, self.tma, self.ticks(cycles)).0,
            ..self
        }
    }

    pub fn new() -> (timer: Timer)
        ensures
            timer == (Timer { sys: 0, tima: 0, tma: 0, tac: 0 }),
    {
        Timer { sys: 0, tima: 0, tma: 0, tac: 0 }
    }

    /// Lets `cycles` machine cycles pass; flags the timer line on `nvic` when
    /// the counter overflows.
    pub fn run(&mut self, cycles: u8, nvic: &mut Nvic)
        ensures
            *final(self) == old(self).after_run(cycles),
            *final(nvic) == old(nvic).raised_if(
                old(self).overflows(cycles),
                InterruptSources::TIMER,
            ),
    {
        let start: u32 = self.sys as u32;
        let end: u32 = start + 4 * (cycles as u32);
        let mut due: u32 = 0;
        if self.tac & 0x04 != 0 {
            let select: u8 = self.tac & 0x03;
            let period: u32 = if select == 0 {
                1024
            } else if select == 1 {
                16
            } else if select == 2 {
                64
            } else {
                256
            };
            due = end / period - start / period;
        }
        let mut overflowed = false;
        let mut done: u32 = 0;
        while done < due
            invariant
                done <= due,
                due == old(self).ticks(cycles),
                self.sys == old(self).sys,
                self.tma == old(self).tma,
                self.tac == old(self).tac,
                (self.tima, overflowed) == counted(old(self).tima, old(self).tma, done as nat),
            decreases due - done,
        {
            if self.tima == 255 {
                self.tima = self.tma;
                overflowed = true;
            } else {
                self.tima = self.tima + 1;
            }
            done = done + 1;
        }
        self.sys = (end % 0x1_0000) as u16;
        if overflowed {
            nvic.set_interrupt(InterruptSources::TIMER);
        }
    }

    /// The divider register: the upper eight bits of the system counter.
    pub fn get_divider(&self) -> (div: u8)
        ensures
            div == self.sys / 256,
    {
        (self.sys / 256) as u8
    }

    /// A write to the divider register resets the system counter.
    pub fn set_divider(&mut self)
        ensures
            *final(self) == (Timer { sys: 0, ..*old(self) }),
    {
        self.sys = 0;
    }

    pub fn get_value(&self) -> (value: u8)
        ensures
            value == self.tima,
    {
        self.tima
    }

    pub fn set_value(&mut self, data: u8)
        ensures
            *final(self) == (Timer { tima: data, ..*old(self) }),
    {
        self.tima = data;
    }

    pub fn get_modulo(&self) -> (modulo: u8)
        ensures
            modulo == self.tma,
    {
        self.tma
    }

    pub fn set_modulo(&mut self, data: u8)
        ensures
            *final(self) == (Timer { tma: data, ..*old(self) }),
    {
        self.tma = data;
    }

    /// The control register as the bus reads it: the five unused bits read
    /// as one.
    pub fn settings_to_byte(&self) -> (data: u8)
        ensures
            data == 0xF8u8 | self.tac,
    {
        0xF8 | self.tac
    }

    /// Loads the control register: only the three low bits are kept.
    pub fn settings_from_byte(&mut self, data: u8)
        ensures
            *final(self) == (Timer { tac: data & 0x07, ..*old(self) }),
    {
        self.tac = data & 0x07;
    }
}

/// Without an overflow the counter has simply advanced by the number of
/// increments; and it overflows exactly when that many increments do not fit
/// below 256.
pub proof fn lemma_counted_overflow(tima: u8, tma: u8, n: nat)
    ensures
        counted(tima, tma, n).1 <==> tima + n > 255,
        tima + n <= 255 ==> counted(tima, tma, n).0 == tima + n,
    decreases n,
{
    if n > 0 {
        lemma_counted_overflow(tima, tma, (n - 1) as nat);
    }
}

/// Counting in two goes is counting once: the increments add up, and the
/// counter has overflowed if it did so in either go.
pub proof fn lemma_counted_adds(tima: u8, tma: u8, first: nat, second: nat)
    ensures
        counted(counted(tima, tma, first).0, tma, second).0 == counted(
            tima,
            tma,
            first + second,
        ).0,
        counted(tima, tma, first + second).1 == (counted(tima, tma, first).1 || counted(
            counted(tima, tma, first).0,
            tma,
            second,
        ).1),
    decreases second,
{
    if second > 0 {
        lemma_counted_adds(tima, tma, first, (second - 1) as nat);
        assert(first + second - 1 == first + (second - 1) as nat);
    }
}

/// The timer keeps time however the cycles are handed to it: running for
/// `first` machine cycles and then for `second` is running for both at
/// once, with the same counter, the same divider and the same overflow.
pub proof fn lemma_timer_runs_add(timer: Timer, first: u8, second: u8)
    requires
        first + second <= 255,
    ensures
        timer.after_run(first).after_run(second) == timer.after_run((first + second) as u8),
        timer.overflows((first + second) as u8) == (timer.overflows(first) || timer.after_run(
            first,
        ).overflows(second)),
{
    let mid = timer.after_run(first);
    let period = period_of(timer.tac);
    assert(period == 1024 || period == 16 || period == 64 || period == 256);
    assert(mid.tac == timer.tac);
    assert(timer.ticks((first + second) as u8) == timer.ticks(first) + mid.ticks(second)) by {
        let s = timer.sys as int;
        let a = 4 * first;
        let b = 4 * second;
        let m = (s + a) % 0x1_0000;
        assert(mid.sys == m);
        if timer.enabled() {
            assert(m == s + a || m == s + a - 0x1_0000);
            assert((m + b) / period - m / period == (s + a + b) / period - (s + a) / period);
        }
    }
    lemma_counted_adds(timer.tima, timer.tma, timer.ticks(first), mid.ticks(second));
}

/// The divider steps once every 64 machine cycles, which is 16384 times a
/// second on the 4.194304 MHz clock: it is the system counter divided by
/// 256, and the system counter moves on by four for each machine cycle.
pub proof fn lemma_divider_rate(timer: Timer, cycles: u8)
    ensures
        timer.after_run(cycles).sys == (timer.sys + 4 * cycles) % 0x1_0000,
        timer.after_run(cycles).sys / 256 == ((timer.sys + 4 * cycles) / 256) % 256,
{
}

/// After an overflow the counter lies at or above the reload value, as long
/// as it started there.
pub proof fn lemma_counted_reload(tima: u8, tma: u8, n: nat)
    requires
        tma <= tima,
    ensures
        tma <= counted(tima, tma, n).0,
        tima + n == 256 ==> counted(tima, tma, n) == (tma, true),
    decreases n,
{
    if n > 0 {
        lemma_counted_reload(tima, tma, (n - 1) as nat);
        lemma_counted_overflow(tima, tma, (n - 1) as nat);
    }
}

} // verus!
