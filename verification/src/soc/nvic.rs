//! Interrupt controller: enable mask, pending flags and priority dispatch.

use vstd::prelude::*;

verus! {

/// The five interrupt lines, from the highest priority to the lowest.
#[derive(Copy, Clone, PartialEq, Eq, Structural, Debug)]
pub enum InterruptSources {
    VBLANK,
    STAT,
    TIMER,
    SERIAL,
    JOYPAD,
}

impl InterruptSources {
    /// Bit position of the line in the enable and flag registers.
    pub open spec fn index(self) -> int {
        match self {
            InterruptSources::VBLANK => 0,
            InterruptSources::STAT => 1,
            InterruptSources::TIMER => 2,
            InterruptSources::SERIAL => 3,
            InterruptSources::JOYPAD => 4,
        }
    }

    /// Register mask of the line: bit `index()` alone.
    pub open spec fn mask(self) -> u8 {
        match self {
            InterruptSources::VBLANK => 0x01u8,
            InterruptSources::STAT => 0x02u8,
            InterruptSources::TIMER => 0x04u8,
            InterruptSources::SERIAL => 0x08u8,
            InterruptSources::JOYPAD => 0x10u8,
        }
    }

    /// Address the processor jumps to when the line is served.
    pub open spec fn vector_of(self) -> u16 {
        match self {
            InterruptSources::VBLANK => 0x40u16,
            InterruptSources::STAT => 0x48u16,
            InterruptSources::TIMER => 0x50u16,
            InterruptSources::SERIAL => 0x58u16,
            InterruptSources::JOYPAD => 0x60u16,
        }
    }

    /// The register mask of the line.
    pub fn bit(self) -> (m: u8)
        ensures
            m == self.mask(),
    {
        match self {
            InterruptSources::VBLANK => 0x01,
            InterruptSources::STAT => 0x02,
            InterruptSources::TIMER => 0x04,
            InterruptSources::SERIAL => 0x08,
            InterruptSources::JOYPAD => 0x10,
        }
    }

    /// The service routine address of the line.
    pub fn vector(self) -> (v: u16)
        ensures
            v == self.vector_of(),
    {
        match self {
            InterruptSources::VBLANK => 0x40,
            InterruptSources::STAT => 0x48,
            InterruptSources::TIMER => 0x50,
            InterruptSources::SERIAL => 0x58,
            InterruptSources::JOYPAD => 0x60,
        }
    }
}

/// Master enable, enable mask and pending flags. Every value of the three
/// fields is a legal state.
pub struct Nvic {
    pub interrupt_master_enable: bool,
    pub interrupt_enable: u8,
    pub interrupt_flag: u8,
}

impl Nvic {
    /// The lines that are both enabled and flagged.
    pub open spec fn active(self) -> u8 {
        self.interrupt_enable & self.interrupt_flag
    }

    /// Some enabled line is flagged.
    pub open spec fn pending(self) -> bool {
        self.active() != 0
    }

    /// Some enabled line is flagged and the master enable is set.
    pub open spec fn ready(self) -> bool {
        self.interrupt_master_enable && self.pending()
    }

    /// `source` is both enabled and flagged.
    pub open spec fn requests(self, source: InterruptSources) -> bool {
        self.active() & source.mask() != 0
    }

    /// The line that is served next: the first one, in priority order, that
    /// is enabled and flagged.
    pub open spec fn highest(self) -> Option<InterruptSources> {
        if self.requests(InterruptSources::VBLANK) {
            Some(InterruptSources::VBLANK)
        } else if self.requests(InterruptSources::STAT) {
            Some(InterruptSources::STAT)
        } else if self.requests(InterruptSources::TIMER) {
            Some(InterruptSources::TIMER)
        } else if self.requests(InterruptSources::SERIAL) {
            Some(InterruptSources::SERIAL)
        } else if self.requests(InterruptSources::JOYPAD) {
            Some(InterruptSources::JOYPAD)
        } else {
            None
        }
    }

    /// The controller with the flag of `source` set.
    pub open spec fn raised(self, source: InterruptSources) -> Nvic {
        Nvic { interrupt_flag: self.interrupt_flag | source.mask(), ..self }
    }

    /// The controller with the flag of `source` set when `cond` holds.
    pub open spec fn raised_if(self, cond: bool, source: InterruptSources) -> Nvic {
        if cond {
            self.raised(source)
        } else {
            self
        }
    }

    /// The controller once `source` has been taken: its flag is cleared.
    pub open spec fn acknowledged(self, source: InterruptSources) -> Nvic {
        Nvic { interrupt_flag: self.interrupt_flag & !source.mask(), ..self }
    }

    /// The controller after a dispatch attempt: the flag of the line served,
    /// if there is one, is cleared.
    pub open spec fn taken(self) -> Nvic {
        match self.highest() {
            Some(source) => self.acknowledged(source),
            None => self,
        }
    }

    pub fn new() -> (nvic: Nvic)
        ensures
            nvic == (Nvic {
                interrupt_master_enable: false,
                interrupt_enable: 0,
                interrupt_flag: 0,
            }),
    {
        Nvic { interrupt_master_enable: false, interrupt_enable: 0, interrupt_flag: 0 }
    }

    pub fn master_enable(&mut self, enable: bool)
        ensures
            *final(self) == (Nvic { interrupt_master_enable: enable, ..*old(self) }),
    {
        self.interrupt_master_enable = enable;
    }

    /// Sets or clears the enable bit of `source`.
    pub fn enable_interrupt(&mut self, source: InterruptSources, enable: bool)
        ensures
            enable ==> *final(self) == (Nvic {
                interrupt_enable: old(self).interrupt_enable | source.mask(),
                ..*old(self)
            }),
            !enable ==> *final(self) == (Nvic {
                interrupt_enable: old(self).interrupt_enable & !source.mask(),
                ..*old(self)
            }),
    {
        if enable {
            self.interrupt_enable = self.interrupt_enable | source.bit();
        } else {
            self.interrupt_enable = self.interrupt_enable & !source.bit();
        }
    }

    /// Flags `source` as pending.
    pub fn set_interrupt(&mut self, source: InterruptSources)
        ensures
            *final(self) == old(self).raised(source),
    {
        self.interrupt_flag = self.interrupt_flag | source.bit();
    }

    /// Takes the pending line of highest priority, clearing its flag; `None`
    /// when no enabled line is flagged. The master enable plays no part.
    pub fn get_interrupt(&mut self) -> (taken: Option<InterruptSources>)
        ensures
            taken == old(self).highest(),
            *final(self) == old(self).taken(),
    {
        let active: u8 = self.interrupt_enable & self.interrupt_flag;
        if active & 0x01 != 0 {
            self.interrupt_flag = self.interrupt_flag & !0x01u8;
            Some(InterruptSources::VBLANK)
        } else if active & 0x02 != 0 {
            self.interrupt_flag = self.interrupt_flag & !0x02u8;
            Some(InterruptSources::STAT)
        } else if active & 0x04 != 0 {
            self.interrupt_flag = self.interrupt_flag & !0x04u8;
            Some(InterruptSources::TIMER)
        } else if active & 0x08 != 0 {
            self.interrupt_flag = self.interrupt_flag & !0x08u8;
            Some(InterruptSources::SERIAL)
        } else if active & 0x10 != 0 {
            self.interrupt_flag = self.interrupt_flag & !0x10u8;
            Some(InterruptSources::JOYPAD)
        } else {
            None
        }
    }

    pub fn is_an_interrupt_to_run(&self) -> (ready: bool)
        ensures
            ready == self.ready(),
    {
        self.interrupt_master_enable && self.is_an_interrupt_pending()
    }

    pub fn is_an_interrupt_pending(&self) -> (pending: bool)
        ensures
            pending == self.pending(),
    {
        (self.interrupt_enable & self.interrupt_flag) != 0
    }

    /// Loads the enable mask from a register write.
    pub fn from_byte(&mut self, data: u8)
        ensures
            *final(self) == (Nvic { interrupt_enable: data, ..*old(self) }),
    {
        self.interrupt_enable = data;
    }

    /// The enable mask as the bus reads it: the three unused bits read as one.
    pub fn to_byte(&self) -> (data: u8)
        ensures
            data == 0xE0u8 | self.interrupt_enable,
    {
        0b11100000 | self.interrupt_enable
    }

    /// Loads the enable mask; the register at the top of the address space.
    pub fn set_it_enable(&mut self, data: u8)
        ensures
            *final(self) == (Nvic { interrupt_enable: data, ..*old(self) }),
    {
        self.from_byte(data);
    }

    /// Reads the enable mask, upper three bits set.
    pub fn get_it_enable(&self) -> (data: u8)
        ensures
            data == 0xE0u8 | self.interrupt_enable,
    {
        self.to_byte()
    }

    /// Loads the pending flags from a register write.
    pub fn set_it_flag(&mut self, data: u8)
        ensures
            *final(self) == (Nvic { interrupt_flag: data, ..*old(self) }),
    {
        self.interrupt_flag = data;
    }

    /// Reads the pending flags, upper three bits set.
    pub fn get_it_flag(&self) -> (data: u8)
        ensures
            data == 0xE0u8 | self.interrupt_flag,
    {
        0b11100000 | self.interrupt_flag
    }
}

/// The line that is served is enabled and flagged, and no line of higher
/// priority is; nothing is served exactly when none of the five lines is
/// both enabled and flagged.
pub proof fn lemma_highest_is_first(nvic: Nvic, other: InterruptSources)
    ensures
        match nvic.highest() {
            Some(source) => nvic.requests(source) && (nvic.requests(other) ==> source.index()
                <= other.index()),
            None => !nvic.requests(other),
        },
{
}

/// Serving a line clears its flag and no other bit of the flag register:
/// the line no longer requests, and every other line requests as before.
pub proof fn lemma_take_clears_one_bit(nvic: Nvic, other: InterruptSources)
    ensures
        match nvic.highest() {
            Some(source) => {
                &&& nvic.taken().interrupt_flag == nvic.interrupt_flag & !source.mask()
                &&& nvic.taken().interrupt_flag | source.mask() == nvic.interrupt_flag
                &&& !nvic.taken().requests(source)
                &&& other != source ==> nvic.taken().requests(other) == nvic.requests(other)
            },
            None => nvic.taken() == nvic,
        },
{
    let e = nvic.interrupt_enable;
    let f = nvic.interrupt_flag;
    match nvic.highest() {
        Some(source) => {
            let m = source.mask();
            let o = other.mask();
            assert(m == 1 || m == 2 || m == 4 || m == 8 || m == 16);
            assert(o == 1 || o == 2 || o == 4 || o == 8 || o == 16);
            assert(e & f & m != 0);
            assert((f & !m) | m == f) by (bit_vector)
                requires
                    e & f & m != 0,
                    m == 1 || m == 2 || m == 4 || m == 8 || m == 16,
            ;
            assert(e & (f & !m) & m == 0) by (bit_vector);
            if other != source {
                assert(o != m);
                assert(e & (f & !m) & o == e & f & o) by (bit_vector)
                    requires
                        o != m,
                        m == 1 || m == 2 || m == 4 || m == 8 || m == 16,
                        o == 1 || o == 2 || o == 4 || o == 8 || o == 16,
                ;
            }
        },
        None => {},
    }
}

/// A line that has just been flagged and is enabled makes the controller
/// pending; flagging never withdraws a request.
pub proof fn lemma_raise_requests(nvic: Nvic, source: InterruptSources, other: InterruptSources)
    ensures
        nvic.raised(source).requests(source) == (nvic.interrupt_enable & source.mask() != 0),
        nvic.requests(other) ==> nvic.raised(source).requests(other),
        nvic.raised(source).requests(other) && !nvic.requests(other) ==> other == source,
{
    let e = nvic.interrupt_enable;
    let f = nvic.interrupt_flag;
    let m = source.mask();
    let o = other.mask();
    assert(m == 1 || m == 2 || m == 4 || m == 8 || m == 16);
    assert(o == 1 || o == 2 || o == 4 || o == 8 || o == 16);
    assert((e & (f | m) & m != 0) == (e & m != 0)) by (bit_vector);
    assert(e & f & o != 0 ==> e & (f | m) & o != 0) by (bit_vector);
    if other != source {
        assert(o != m);
        assert(e & (f | m) & o == e & f & o) by (bit_vector)
            requires
                o != m,
                m == 1 || m == 2 || m == 4 || m == 8 || m == 16,
                o == 1 || o == 2 || o == 4 || o == 8 || o == 16,
        ;
    }
}

} // verus!
