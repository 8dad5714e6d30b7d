//! The LCD controller: video memory, sprite table, registers, line timing
//! and the scanline renderer.

use vstd::prelude::*;
use crate::soc::nvic::{InterruptSources, Nvic};
use crate::soc::peripheral::gpu::model::{
    grey_of, plane_pixel, GpuView, DRAW_END, LINE_PERIODS, MODE_DRAWING, MODE_HBLANK,
    MODE_OAM_SCAN, MODE_VBLANK, SCAN_END,
};

pub mod model;

verus! {

/// The LCD controller.
pub struct Gpu {
    vram: [u8; 0x2000],
    oam: [u8; 160],
    frame: [u8; 23040],
    lcdc: u8,
    stat: u8,
    scy: u8,
    scx: u8,
    ly: u8,
    lyc: u8,
    bgp: u8,
    obp0: u8,
    obp1: u8,
    wy: u8,
    wx: u8,
    clock: u16,
}

impl Gpu {
    #[verifier::type_invariant]
    spec fn inv(&self) -> bool {
        &&& self.ly < 154
        &&& self.clock < 456
        &&& forall|i: int| 0 <= i < 23040 ==> #[trigger] self.frame@[i] <= 3
    }

    pub closed spec fn view(&self) -> GpuView {
        GpuView {
            vram: self.vram@,
            oam: self.oam@,
            frame: self.frame@,
            lcdc: self.lcdc,
            stat: self.stat,
            scy: self.scy,
            scx: self.scx,
            ly: self.ly,
            lyc: self.lyc,
            bgp: self.bgp,
            obp0: self.obp0,
            obp1: self.obp1,
            wy: self.wy,
            wx: self.wx,
            clock: self.clock,
        }
    }

    /// Video memory filled with `0xFF`, everything else zero.
    pub fn new() -> (gpu: Gpu)
        ensures
            gpu@ == GpuView::reset(),
            gpu@.wf(),
    {
        let gpu = Gpu {
            vram: [0xFF; 0x2000],
            oam: [0; 160],
            frame: [0; 23040],
            lcdc: 0,
            stat: 0,
            scy: 0,
            scx: 0,
            ly: 0,
            lyc: 0,
            bgp: 0,
            obp0: 0,
            obp1: 0,
            wy: 0,
            wx: 0,
            clock: 0,
        };
        assert(gpu@.vram =~= GpuView::reset().vram);
        assert(gpu@.oam =~= GpuView::reset().oam);
        assert(gpu@.frame =~= GpuView::reset().frame);
        gpu
    }

    /// States what holds of every controller.
    pub fn use_invariant(&self)
        ensures
            self@.wf(),
    {
        proof {
            use_type_invariant(self);
        }
    }

    pub fn read_vram(&self, address: u16) -> (data: u8)
        requires
            address < 0x2000,
        ensures
            data == self@.vram[address as int],
    {
        self.vram[address as usize]
    }

    pub fn write_vram(&mut self, address: u16, data: u8)
        requires
            address < 0x2000,
        ensures
            final(self)@ == (GpuView {
                vram: old(self)@.vram.update(address as int, data),
                ..old(self)@
            }),
    {
        proof {
            use_type_invariant(&*self);
        }
        self.vram[address as usize] = data;
    }

    pub fn read_oam(&self, address: usize) -> (data: u8)
        requires
            address < 160,
        ensures
            data == self@.oam[address as int],
    {
        self.oam[address]
    }

    pub fn write_oam(&mut self, address: usize, data: u8)
        requires
            address < 160,
        ensures
            final(self)@ == (GpuView {
                oam: old(self)@.oam.update(address as int, data),
                ..old(self)@
            }),
    {
        proof {
            use_type_invariant(&*self);
        }
        self.oam[address] = data;
    }

    /// The colour index of a pixel of the frame, row-major from the top left.
    pub fn get_frame_buffer(&self, pixel_index: usize) -> (color: u8)
        requires
            pixel_index < 23040,
        ensures
            color == self@.frame[pixel_index as int],
            color <= 3,
    {
        proof {
            use_type_invariant(self);
        }
        self.frame[pixel_index]
    }

    pub fn control_to_byte(&self) -> (data: u8)
        ensures
            data == self@.lcdc,
    {
        self.lcdc
    }

    pub fn control_from_byte(&mut self, data: u8)
        ensures
            final(self)@ == (GpuView { lcdc: data, ..old(self)@ }),
    {
        proof {
            use_type_invariant(&*self);
        }
        self.lcdc = data;
    }

    /// The mode bits of the status register.
    pub fn get_mode(&self) -> (mode: u8)
        ensures
            mode == self@.mode(),
    {
        if self.ly >= 144 {
            MODE_VBLANK
        } else if self.clock < SCAN_END {
            MODE_OAM_SCAN
        } else if self.clock < DRAW_END {
            MODE_DRAWING
        } else {
            MODE_HBLANK
        }
    }

    pub fn status_to_byte(&self) -> (data: u8)
        ensures
            data == self@.status(),
    {
        let coincidence: u8 = if self.ly == self.lyc {
            0x04
        } else {
            0x00
        };
        0x80 | (self.stat & 0x78) | coincidence | self.get_mode()
    }

    /// Loads the status register: only the four enables can be written.
    pub fn status_from_byte(&mut self, data: u8)
        ensures
            final(self)@ == (GpuView { stat: data & 0x78, ..old(self)@ }),
    {
        proof {
            use_type_invariant(&*self);
        }
        self.stat = data & 0x78;
    }

    pub fn get_scy(&self) -> (data: u8)
        ensures
            data == self@.scy,
    {
        self.scy
    }

    pub fn set_scy(&mut self, data: u8)
        ensures
            final(self)@ == (GpuView { scy: data, ..old(self)@ }),
    {
        proof {
            use_type_invariant(&*self);
        }
        self.scy = data;
    }

    pub fn get_scx(&self) -> (data: u8)
        ensures
            data == self@.scx,
    {
        self.scx
    }

    pub fn set_scx(&mut self, data: u8)
        ensures
            final(self)@ == (GpuView { scx: data, ..old(self)@ }),
    {
        proof {
            use_type_invariant(&*self);
        }
        self.scx = data;
    }

    pub fn get_current_line(&self) -> (line: u8)
        ensures
            line == self@.ly,
            line < 154,
    {
        proof {
            use_type_invariant(self);
        }
        self.ly
    }

    pub fn get_compare_line(&self) -> (data: u8)
        ensures
            data == self@.lyc,
    {
        self.lyc
    }

    pub fn set_compare_line(&mut self, data: u8)
        ensures
            final(self)@ == (GpuView { lyc: data, ..old(self)@ }),
    {
        proof {
            use_type_invariant(&*self);
        }
        self.lyc = data;
    }

    pub fn get_background_palette(&self) -> (data: u8)
        ensures
            data == self@.bgp,
    {
        self.bgp
    }

    pub fn set_background_palette(&mut self, data: u8)
        ensures
            final(self)@ == (GpuView { bgp: data, ..old(self)@ }),
    {
        proof {
            use_type_invariant(&*self);
        }
        self.bgp = data;
    }

    pub fn get_object_palette_0(&self) -> (data: u8)
        ensures
            data == self@.obp0,
    {
        self.obp0
    }

    pub fn set_object_palette_0(&mut self, data: u8)
        ensures
            final(self)@ == (GpuView { obp0: data, ..old(self)@ }),
    {
        proof {
            use_type_invariant(&*self);
        }
        self.obp0 = data;
    }

    pub fn get_object_palette_1(&self) -> (data: u8)
        ensures
            data == self@.obp1,
    {
        self.obp1
    }

    pub fn set_object_palette_1(&mut self, data: u8)
        ensures
            final(self)@ == (GpuView { obp1: data, ..old(self)@ }),
    {
        proof {
            use_type_invariant(&*self);
        }
        self.obp1 = data;
    }

    pub fn get_window_y(&self) -> (data: u8)
        ensures
            data == self@.wy,
    {
        self.wy
    }

    pub fn set_window_y(&mut self, data: u8)
        ensures
            final(self)@ == (GpuView { wy: data, ..old(self)@ }),
    {
        proof {
            use_type_invariant(&*self);
        }
        self.wy = data;
    }

    pub fn get_window_x(&self) -> (data: u8)
        ensures
            data == self@.wx,
    {
        self.wx
    }

    pub fn set_window_x(&mut self, data: u8)
        ensures
            final(self)@ == (GpuView { wx: data, ..old(self)@ }),
    {
        proof {
            use_type_invariant(&*self);
        }
        self.wx = data;
    }

    /// The grey level that the background palette gives a colour index.
    pub fn get_bg_pixel_color_from_palette(&self, index: u8) -> (grey: u8)
        ensures
            grey == grey_of(self@.background_shade(index)),
    {
        let slot: u8 = index & 0x03;
        assert(slot <= 3) by (bit_vector)
            requires
                slot == index & 0x03,
        ;
        let shade: u8 = (self.bgp >> (slot * 2)) & 0x03;
        if shade & 0x03 == 0 {
            0xFF
        } else if shade & 0x03 == 1 {
            0xAA
        } else if shade & 0x03 == 2 {
            0x55
        } else {
            0x00
        }
    }
}


/// Decodes one pixel of a tile row from its two bit planes.
pub fn decode_plane_pixel(low: u8, high: u8, col: u8) -> (color: u8)
    requires
        col < 8,
    ensures
        color == plane_pixel(low, high, col),
        color <= 3,
{
    let shift: u8 = 7 - col;
    let color: u8 = (((high >> shift) & 0x01) << 1u8) | ((low >> shift) & 0x01);
    assert(color <= 3) by (bit_vector)
        requires
            color == (((high >> shift) & 0x01) << 1u8) | ((low >> shift) & 0x01),
    ;
    color
}

impl Gpu {
    fn tile_data(&self, tile: u8) -> (at: usize)
        ensures
            at == self@.scene().tile_data(tile),
            at + 16 <= 0x1800,
    {
        if self.lcdc & 0x10 != 0 {
            tile as usize * 16
        } else if tile < 128 {
            0x1000 + tile as usize * 16
        } else {
            0x0800 + (tile as usize - 128) * 16
        }
    }

    fn map_pixel(&self, upper: bool, px: usize, py: usize) -> (color: u8)
        requires
            px < 256,
            py < 256,
        ensures
            color == self@.scene().map_pixel(upper, px as int, py as int),
            color <= 3,
    {
        let base: usize = if upper {
            0x1C00
        } else {
            0x1800
        };
        let tile: u8 = self.vram[base + (py / 8) * 32 + px / 8];
        let row: usize = self.tile_data(tile) + 2 * (py % 8);
        decode_plane_pixel(self.vram[row], self.vram[row + 1], (px % 8) as u8)
    }

    fn backdrop(&self, x: u8, line: u8) -> (color: u8)
        requires
            x < 160,
            line < 144,
        ensures
            color == self@.scene().backdrop(x as int, line as int),
            color <= 3,
    {
        if self.lcdc & 0x20 != 0 && line >= self.wy && x as usize + 7 >= self.wx as usize {
            self.map_pixel(
                self.lcdc & 0x40 != 0,
                x as usize + 7 - self.wx as usize,
                (line - self.wy) as usize,
            )
        } else if self.lcdc & 0x01 != 0 {
            self.map_pixel(
                self.lcdc & 0x08 != 0,
                (self.scx as usize + x as usize) % 256,
                (self.scy as usize + line as usize) % 256,
            )
        } else {
            0
        }
    }

    /// The sprite scan of a line: which of the forty sprites it keeps.
    fn scan_sprites(&self, line: u8) -> (kept: [bool; 40])
        requires
            line < 144,
        ensures
            forall|i: int|
                0 <= i < 40 ==> kept[i] == #[trigger] self@.scene().sprite_selected(
                    i,
                    line as int,
                ),
    {
        let height: usize = if self.lcdc & 0x04 != 0 {
            16
        } else {
            8
        };
        let mut kept: [bool; 40] = [false; 40];
        let mut found: usize = 0;
        let mut i: usize = 0;
        while i < 40
            invariant
                i <= 40,
                found <= i,
                height == self@.scene().sprite_height(),
                found == self@.scene().sprites_before(i as int, line as int),
                forall|j: int|
                    0 <= j < i ==> kept[j] == #[trigger] self@.scene().sprite_selected(
                        j,
                        line as int,
                    ),
                forall|j: int| i <= j < 40 ==> !kept[j],
            decreases 40 - i,
        {
            let y: usize = self.oam[4 * i] as usize;
            if y <= line as usize + 16 && line as usize + 16 < y + height {
                if found < 10 {
                    kept[i] = true;
                }
                found = found + 1;
            }
            i = i + 1;
        }
        kept
    }

    fn sprite_pixel(&self, i: usize, x: u8, line: u8) -> (color: u8)
        requires
            i < 40,
            x < 160,
            line < 144,
            self@.scene().sprite_on_line(i as int, line as int),
            self@.scene().sprite_covers(i as int, x as int),
        ensures
            color == self@.scene().sprite_pixel(i as int, x as int, line as int),
            color <= 3,
    {
        let flags: u8 = self.oam[4 * i + 3];
        let tall: bool = self.lcdc & 0x04 != 0;
        let height: usize = if tall {
            16
        } else {
            8
        };
        let down: usize = line as usize + 16 - self.oam[4 * i] as usize;
        let row: usize = if flags & 0x40 != 0 {
            height - 1 - down
        } else {
            down
        };
        let across: usize = x as usize + 8 - self.oam[4 * i + 1] as usize;
        let col: usize = if flags & 0x20 != 0 {
            7 - across
        } else {
            across
        };
        let raw: u8 = self.oam[4 * i + 2];
        let tile: u8 = if tall {
            raw & 0xFE
        } else {
            raw
        };
        assert(raw & 0xFE <= 254) by (bit_vector);
        let at: usize = tile as usize * 16 + 2 * row;
        decode_plane_pixel(self.vram[at], self.vram[at + 1], col as u8)
    }

    /// The sprite that is drawn on top at a pixel, if one shows there.
    fn front_sprite(&self, kept: &[bool; 40], x: u8, line: u8) -> (front: Option<usize>)
        requires
            x < 160,
            line < 144,
            forall|i: int|
                0 <= i < 40 ==> kept[i] == #[trigger] self@.scene().sprite_selected(
                    i,
                    line as int,
                ),
        ensures
            match front {
                Some(i) => i < 40 && self@.scene().front_sprite(40, x as int, line as int)
                    == Some(i as int) && self@.scene().sprite_shows(
                    i as int,
                    x as int,
                    line as int,
                ),
                None => self@.scene().front_sprite(40, x as int, line as int) is None,
            },
    {
        let mut front: Option<usize> = None;
        let mut i: usize = 0;
        while i < 40
            invariant
                i <= 40,
                x < 160,
                line < 144,
                forall|j: int|
                    0 <= j < 40 ==> kept[j] == #[trigger] self@.scene().sprite_selected(
                        j,
                        line as int,
                    ),
                match front {
                    Some(j) => j < i && self@.scene().front_sprite(
                        i as int,
                        x as int,
                        line as int,
                    ) == Some(j as int) && self@.scene().sprite_shows(
                        j as int,
                        x as int,
                        line as int,
                    ),
                    None => self@.scene().front_sprite(i as int, x as int, line as int) is None,
                },
            decreases 40 - i,
        {
            let mut shows: bool = false;
            if kept[i] {
                assert(self@.scene().sprite_selected(i as int, line as int));
                let sx: usize = self.oam[4 * i + 1] as usize;
                if sx <= x as usize + 8 && x as usize + 8 < sx + 8 {
                    shows = self.sprite_pixel(i, x, line) != 0;
                }
            }
            assert(shows == self@.scene().sprite_shows(i as int, x as int, line as int));
            if shows {
                match front {
                    None => {
                        front = Some(i);
                    },
                    Some(j) => {
                        if self.oam[4 * i + 1] < self.oam[4 * j + 1] {
                            front = Some(i);
                        }
                    },
                }
            }
            i = i + 1;
        }
        front
    }

    fn pixel(&self, kept: &[bool; 40], x: u8, line: u8) -> (color: u8)
        requires
            x < 160,
            line < 144,
            forall|i: int|
                0 <= i < 40 ==> kept[i] == #[trigger] self@.scene().sprite_selected(
                    i,
                    line as int,
                ),
        ensures
            color == self@.scene().pixel(x as int, line as int),
            color <= 3,
    {
        if self.lcdc & 0x80 == 0 {
            return 0;
        }
        let back: u8 = self.backdrop(x, line);
        if self.lcdc & 0x02 == 0 {
            return back;
        }
        match self.front_sprite(kept, x, line) {
            None => back,
            Some(i) => {
                if self.oam[4 * i + 3] & 0x80 != 0 && back != 0 {
                    back
                } else {
                    self.sprite_pixel(i, x, line)
                }
            },
        }
    }

    /// Draws one visible line of the frame from the scene as it is now.
    fn draw_line(&mut self, line: u8)
        requires
            line < 144,
        ensures
            final(self)@ == old(self)@.with_line(line as int),
    {
        proof {
            use_type_invariant(&*self);
        }
        let kept: [bool; 40] = self.scan_sprites(line);
        let mut row: [u8; 160] = [0; 160];
        let mut x: u8 = 0;
        while x < 160
            invariant
                x <= 160,
                line < 144,
                *self == *old(self),
                forall|i: int|
                    0 <= i < 40 ==> kept[i] == #[trigger] self@.scene().sprite_selected(
                        i,
                        line as int,
                    ),
                forall|j: int|
                    0 <= j < x ==> #[trigger] row[j] == self@.scene().pixel(j, line as int)
                        && row[j] <= 3,
            decreases 160 - x,
        {
            let color: u8 = self.pixel(&kept, x, line);
            row[x as usize] = color;
            x = x + 1;
        }
        let base: usize = line as usize * 160;
        let mut k: usize = 0;
        while k < 160
            invariant
                k <= 160,
                line < 144,
                base == line * 160,
                self.ly < 154,
                self.clock < 456,
                forall|i: int| 0 <= i < 23040 ==> #[trigger] self.frame@[i] <= 3,
                self@ == (GpuView { frame: self@.frame, ..old(self)@ }),
                forall|j: int|
                    0 <= j < 160 ==> #[trigger] row[j] == old(self)@.scene().pixel(
                        j,
                        line as int,
                    ) && row[j] <= 3,
                forall|i: int|
                    0 <= i < 23040 ==> #[trigger] self.frame@[i] == if base <= i < base + k {
                        row[i - base]
                    } else {
                        old(self).frame@[i]
                    },
            decreases 160 - k,
        {
            self.frame[base + k] = row[k];
            k = k + 1;
        }
        assert(self@.frame =~= old(self)@.with_line(line as int).frame);
    }
}


/// Between two edges of the line timing nothing happens, and at an edge only
/// what belongs to it: the drawing of the current line completes at period
/// 252 of a visible line, and the next line starts at period 456.
proof fn lemma_segment(start: GpuView, done: int, step: int, ly: int, clock: int, wrapped: int)
    requires
        start.wf(),
        0 <= done,
        0 < step,
        done + step <= 1020,
        0 <= ly < 154,
        0 <= clock < 456,
        wrapped == 0 || wrapped == 1,
        ly * 456 + clock + wrapped * 70224 == start.dot() + done,
        clock < 252 ==> clock + step <= 252,
        clock + step <= 456,
    ensures
        forall|line: int|
            0 <= line < 154 ==> #[trigger] start.draws_line(done + step, line) == (
            start.draws_line(done, line) || (line == ly && ly < 144 && clock + step == 252)),
        forall|line: int|
            0 <= line < 154 ==> #[trigger] start.starts_line(done + step, line) == (
            start.starts_line(done, line) || (line == (if ly == 153 {
                0
            } else {
                ly + 1
            }) && clock + step == 456)),
{
}

impl Gpu {
    /// Lets `cycles` machine cycles, of four clock periods each, pass. Each
    /// visible line is drawn when its drawing period ends; the vertical
    /// blank and status lines are flagged on `nvic` as they fall due.
    pub fn run(&mut self, cycles: u8, nvic: &mut Nvic)
        ensures
            final(self)@ == old(self)@.advanced(4 * cycles),
            *final(nvic) == old(nvic).raised_if(
                old(self)@.vblank_raised(4 * cycles),
                InterruptSources::VBLANK,
            ).raised_if(old(self)@.stat_raised(4 * cycles), InterruptSources::STAT),
    {
        proof {
            use_type_invariant(&*self);
        }
        let total: u16 = 4 * (cycles as u16);
        let mut remaining: u16 = total;
        let mut vblank: bool = false;
        let mut stat: bool = false;
        let ghost start = self@;
        let ghost mut wrapped: int = 0;
        assert(!start.stat_raised(0));
        while remaining > 0
            invariant
                remaining <= total,
                total == 4 * cycles,
                start == old(self)@,
                start.wf(),
                self.ly < 154,
                self.clock < 456,
                forall|i: int| 0 <= i < 23040 ==> #[trigger] self.frame@[i] <= 3,
                wrapped == 0 || wrapped == 1,
                self.ly * 456 + self.clock + wrapped * 70224 == start.dot() + (total - remaining),
                self@ == (GpuView {
                    ly: self.ly,
                    clock: self.clock,
                    frame: self@.frame,
                    ..start
                }),
                vblank == start.vblank_raised(total - remaining),
                stat == start.stat_raised(total - remaining),
                forall|i: int|
                    0 <= i < 23040 ==> #[trigger] self.frame@[i] == if start.draws_line(
                        total - remaining,
                        i / 160,
                    ) {
                        start.scene().pixel(i % 160, i / 160)
                    } else {
                        start.frame[i]
                    },
            decreases remaining,
        {
            let ghost done: int = total - remaining;
            let ghost before = self@;
            let ghost stat_before = stat;
            let edge: u16 = if self.clock < DRAW_END {
                DRAW_END
            } else {
                LINE_PERIODS
            };
            let gap: u16 = edge - self.clock;
            let step: u16 = if remaining < gap {
                remaining
            } else {
                gap
            };
            proof {
                lemma_segment(
                    start,
                    done,
                    step as int,
                    self.ly as int,
                    self.clock as int,
                    wrapped,
                );
            }
            let ghost mut event: bool = false;
            let ghost line_now: int = self.ly as int;
            let ghost next_line: int = if self.ly == 153 {
                0
            } else {
                self.ly + 1
            };
            remaining = remaining - step;
            if step < gap {
                self.clock = self.clock + step;
            } else if edge == DRAW_END {
                self.clock = DRAW_END;
                if self.ly < 144 {
                    let line: u8 = self.ly;
                    self.draw_line(line);
                    if self.stat & 0x08 != 0 {
                        stat = true;
                        proof {
                            event = true;
                        }
                    }
                    assert(start.draws_line(done + step, line_now));
                }
            } else {
                self.clock = 0;
                if self.ly == 153 {
                    self.ly = 0;
                    proof {
                        wrapped = 1;
                    }
                } else {
                    self.ly = self.ly + 1;
                }
                if self.ly == 144 {
                    vblank = true;
                    if self.stat & 0x10 != 0 {
                        stat = true;
                    }
                }
                if self.ly < 144 && self.stat & 0x20 != 0 {
                    stat = true;
                }
                if self.ly == self.lyc && self.stat & 0x40 != 0 {
                    stat = true;
                }
                proof {
                    event = start.line_asks(next_line);
                }
                assert(start.starts_line(done + step, next_line));
            }
            proof {
                use_type_invariant(&*self);
                let now = done + step;
                assert(stat == (stat_before || event));
                if event {
                    if step == gap && edge == 252 {
                        assert(start.stat_event(now, line_now));
                    } else {
                        assert(start.stat_event(now, next_line));
                    }
                    assert(start.stat_raised(now));
                }
                if stat_before {
                    let w = choose|line: int|
                        0 <= line < 154 && #[trigger] start.stat_event(done, line);
                    assert(start.stat_event(now, w));
                }
                if start.stat_raised(now) {
                    let w = choose|line: int|
                        0 <= line < 154 && #[trigger] start.stat_event(now, line);
                    if !start.stat_event(done, w) {
                        assert(event);
                    }
                }
                assert forall|i: int| 0 <= i < 23040 implies #[trigger] self.frame@[i]
                    == if start.draws_line(now, i / 160) {
                    start.scene().pixel(i % 160, i / 160)
                } else {
                    start.frame[i]
                } by {
                    assert(0 <= i / 160 < 144);
                    assert(before.scene() == start.scene());
                }
            }
        }
        proof {
            let t = start.dot() + total;
            assert(self.ly * 456 + self.clock == t % 70224);
            assert(self@.frame =~= start.advanced(total as int).frame);
        }
        if vblank {
            nvic.set_interrupt(InterruptSources::VBLANK);
        }
        if stat {
            nvic.set_interrupt(InterruptSources::STAT);
        }
    }
}

} // verus!
