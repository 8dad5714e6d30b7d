//! The engine that copies 160 bytes into the sprite table, one byte per
//! machine cycle.

use vstd::prelude::*;

verus! {

/// Bytes in one transfer: the whole sprite table.
pub const DMA_LENGTH: u8 = 160;

/// The state of the engine as plain values.
pub struct DmaView {
    /// Number of the 256-byte page that is the source.
    pub page: u8,
    /// Bytes copied so far in the transfer under way.
    pub offset: u8,
    /// A transfer is under way.
    pub active: bool,
}

impl DmaView {
    /// What holds of every engine: the offset stays within the table, and
    /// is zero while no transfer is under way.
    pub open spec fn wf(self) -> bool {
        &&& self.offset < 160
        &&& !self.active ==> self.offset == 0
    }

    /// Address of the first byte of the source.
    pub open spec fn source(self) -> u16 {
        (self.page * 256) as u16
    }

    /// Bytes that are copied while `cycles` machine cycles pass: one per
    /// cycle until the table is full.
    pub open spec fn count(self, cycles: u8) -> int {
        if !self.active {
            0
        } else if self.offset + cycles <= 160 {
            cycles as int
        } else {
            160 - self.offset
        }
    }

    /// Bytes that the transfer under way has still to copy.
    pub open spec fn remaining(self) -> int {
        if self.active {
            160 - self.offset
        } else {
            0
        }
    }

    /// The engine after a write of `page` to its register: a transfer of
    /// the whole table is under way, from the start of the 256-byte page of
    /// that number. One that was under way is given up.
    pub open spec fn started(self, page: u8) -> DmaView {
        DmaView { page: page, offset: 0, active: true }
    }

    /// The engine after `cycles` machine cycles: the transfer has moved on
    /// by the bytes copied, and has ended when the table is full.
    pub open spec fn progressed(self, cycles: u8) -> DmaView {
        if !self.active {
            self
        } else if self.offset + cycles >= 160 {
            DmaView { offset: 0, active: false, ..self }
        } else {
            DmaView { offset: (self.offset + cycles) as u8, ..self }
        }
    }
}

/// The transfer engine.
pub struct Dma {
    page: u8,
    offset: u8,
    active: bool,
}

impl Dma {
    #[verifier::type_invariant]
    spec fn inv(&self) -> bool {
        &&& self.offset < 160
        &&& !self.active ==> self.offset == 0
    }

    pub closed spec fn view(&self) -> DmaView {
        DmaView { page: self.page, offset: self.offset, active: self.active }
    }

    /// No transfer under way.
    pub fn new() -> (dma: Dma)
        ensures
            dma@ == (DmaView { page: 0, offset: 0, active: false }),
    {
        Dma { page: 0, offset: 0, active: false }
    }

    /// States what holds of every engine.
    pub fn use_invariant(&self)
        ensures
            self@.wf(),
    {
        proof {
            use_type_invariant(self);
        }
    }

    pub fn is_active(&self) -> (active: bool)
        ensures
            active == self@.active,
    {
        self.active
    }

    /// Address of the first byte of the source.
    pub fn source(&self) -> (source: u16)
        ensures
            source == self@.source(),
            source <= 0xFF00,
    {
        (self.page as u16) * 256
    }

    pub fn offset(&self) -> (offset: u8)
        ensures
            offset == self@.offset,
            offset < 160,
    {
        proof {
            use_type_invariant(self);
        }
        self.offset
    }

    /// The number of the source page, as the register reads back.
    pub fn page(&self) -> (page: u8)
        ensures
            page == self@.page,
    {
        self.page
    }

    /// Bytes to copy while `cycles` machine cycles pass.
    pub fn count(&self, cycles: u8) -> (count: u8)
        ensures
            count == self@.count(cycles),
            self@.offset + count <= 160,
    {
        proof {
            use_type_invariant(self);
        }
        if !self.active {
            0
        } else if cycles <= DMA_LENGTH - self.offset {
            cycles
        } else {
            DMA_LENGTH - self.offset
        }
    }

    /// Latches the source page and starts a transfer from its first byte.
    pub fn start(&mut self, page: u8)
        ensures
            final(self)@ == old(self)@.started(page),
    {
        proof {
            use_type_invariant(&*self);
        }
        self.page = page;
        self.offset = 0;
        self.active = true;
    }

    /// Accounts for `cycles` machine cycles of copying.
    pub fn advance(&mut self, cycles: u8)
        ensures
            final(self)@ == old(self)@.progressed(cycles),
    {
        proof {
            use_type_invariant(&*self);
        }
        if self.active {
            if cycles >= DMA_LENGTH - self.offset {
                self.offset = 0;
                self.active = false;
            } else {
                self.offset = self.offset + cycles;
            }
        }
    }
}

} // verus!
