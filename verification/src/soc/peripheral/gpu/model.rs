//! The LCD controller as plain values: what the registers mean, how the
//! line timing advances and which colour each pixel of a scanline gets.

use vstd::prelude::*;

verus! {

pub const SCREEN_WIDTH: usize = 160;

pub const SCREEN_HEIGHT: usize = 144;

pub const VRAM_LENGTH: usize = 0x2000;

pub const OAM_LENGTH: usize = 160;

pub const FRAME_LENGTH: usize = 23040;

/// Clock periods per scanline.
pub const LINE_PERIODS: u16 = 456;

/// Clock periods per frame: 154 scanlines.
pub const FRAME_PERIODS: u32 = 70224;

/// Clock periods into a visible line at which the sprite scan ends.
pub const SCAN_END: u16 = 80;

/// Clock periods into a visible line at which drawing ends.
pub const DRAW_END: u16 = 252;

pub const MODE_HBLANK: u8 = 0;

pub const MODE_VBLANK: u8 = 1;

pub const MODE_OAM_SCAN: u8 = 2;

pub const MODE_DRAWING: u8 = 3;

/// The state of the controller as plain values.
pub struct GpuView {
    pub vram: Seq<u8>,
    pub oam: Seq<u8>,
    /// One colour index per pixel, row after row from the top left.
    pub frame: Seq<u8>,
    pub lcdc: u8,
    /// The four interrupt-source enables, bits 6 to 3; the other bits of the
    /// status register are derived.
    pub stat: u8,
    pub scy: u8,
    pub scx: u8,
    pub ly: u8,
    pub lyc: u8,
    pub bgp: u8,
    pub obp0: u8,
    pub obp1: u8,
    pub wy: u8,
    pub wx: u8,
    /// Clock periods into the current scanline.
    pub clock: u16,
}

impl GpuView {
    /// What holds of every controller.
    pub open spec fn wf(self) -> bool {
        &&& self.vram.len() == 0x2000
        &&& self.oam.len() == 160
        &&& self.frame.len() == 23040
        &&& self.ly < 154
        &&& self.clock < 456
        &&& forall|i: int| 0 <= i < 23040 ==> #[trigger] self.frame[i] <= 3
    }

    /// The controller at power-on.
    pub open spec fn reset() -> GpuView {
        GpuView {
            vram: Seq::new(0x2000, |i: int| 0xFFu8),
            oam: Seq::new(160, |i: int| 0u8),
            frame: Seq::new(23040, |i: int| 0u8),
            lcdc: 0,
            stat: 0,
            scy: 0,
            scx: 0,
            ly: 0,
            lyc: 0,
            bgp: 0,
            obp0: 0,
            obp1: 0,
            wy: 0,
            wx: 0,
            clock: 0,
        }
    }

    /// Clock periods since the top of the frame.
    pub open spec fn dot(self) -> int {
        self.ly * 456 + self.clock
    }

    /// The mode the controller is in: vertical blank on lines 144 to 153;
    /// on a visible line sprite scan, then drawing, then horizontal blank.
    pub open spec fn mode(self) -> u8 {
        if self.ly >= 144 {
            1
        } else if self.clock < 80 {
            2
        } else if self.clock < 252 {
            3
        } else {
            0
        }
    }

    /// The line counter equals the compare register.
    pub open spec fn coincidence(self) -> bool {
        self.ly == self.lyc
    }

    /// The status register as the bus reads it: bit 7 reads as one, bits 6
    /// to 3 are the enables, bit 2 the coincidence flag, bits 1 and 0 the
    /// mode.
    pub open spec fn status(self) -> u8 {
        0x80u8 | (self.stat & 0x78) | (if self.coincidence() {
            0x04u8
        } else {
            0x00u8
        }) | self.mode()
    }

    /// The shade, 0 to 3, that the background palette gives a colour index.
    pub open spec fn background_shade(self, index: u8) -> u8 {
        (self.bgp >> ((index & 0x03) * 2) as u8) & 0x03
    }
}

/// The grey level, 255 for white down to 0 for black, of a shade.
pub open spec fn grey_of(shade: u8) -> u8 {
    if shade & 0x03 == 0 {
        0xFF
    } else if shade & 0x03 == 1 {
        0xAA
    } else if shade & 0x03 == 2 {
        0x55
    } else {
        0x00
    }
}


/// Colour index, 0 to 3, of column `col` of a tile row stored as two bit
/// planes; column 0 is the leftmost pixel and sits in bit 7.
pub open spec fn plane_pixel(low: u8, high: u8, col: u8) -> u8 {
    (((high >> ((7 - col) as u8)) & 0x01) << 1u8) | ((low >> ((7 - col) as u8)) & 0x01)
}

/// What a scanline is drawn from: video memory, the sprite table and the
/// registers that place the layers.
pub struct Scene {
    pub vram: Seq<u8>,
    pub oam: Seq<u8>,
    pub lcdc: u8,
    pub scy: u8,
    pub scx: u8,
    pub wy: u8,
    pub wx: u8,
}

impl Scene {
    /// Offset in video memory of the tile map: the upper one when `upper`.
    pub open spec fn map_base(upper: bool) -> int {
        if upper {
            0x1C00
        } else {
            0x1800
        }
    }

    /// Offset in video memory of the 16 bytes of a background or window
    /// tile: counted from the bottom when bit 4 of the control register is
    /// set, else signed around the middle.
    pub open spec fn tile_data(self, tile: u8) -> int {
        if self.lcdc & 0x10 != 0 {
            tile * 16
        } else if tile < 128 {
            0x1000 + tile * 16
        } else {
            0x0800 + (tile - 128) * 16
        }
    }

    /// Colour index at pixel (`px`, `py`) of a 256 by 256 tile map.
    pub open spec fn map_pixel(self, upper: bool, px: int, py: int) -> u8 {
        let tile = self.vram[Self::map_base(upper) + (py / 8) * 32 + px / 8];
        let row = self.tile_data(tile) + 2 * (py % 8);
        plane_pixel(self.vram[row], self.vram[row + 1], (px % 8) as u8)
    }

    /// Colour index of the background layer at screen column `x` of `line`:
    /// the scrolled map, or 0 when the layer is switched off.
    pub open spec fn background(self, x: int, line: int) -> u8 {
        if self.lcdc & 0x01 != 0 {
            self.map_pixel(self.lcdc & 0x08 != 0, (self.scx + x) % 256, (self.scy + line) % 256)
        } else {
            0
        }
    }

    /// The window layer covers screen column `x` of `line`.
    pub open spec fn in_window(self, x: int, line: int) -> bool {
        self.lcdc & 0x20 != 0 && line >= self.wy && x + 7 >= self.wx
    }

    /// Colour index of the window layer at a pixel that it covers.
    pub open spec fn window(self, x: int, line: int) -> u8 {
        self.map_pixel(self.lcdc & 0x40 != 0, x + 7 - self.wx, line - self.wy)
    }

    /// Colour index behind the sprites: the window where it covers the
    /// pixel, else the background.
    pub open spec fn backdrop(self, x: int, line: int) -> u8 {
        if self.in_window(x, line) {
            self.window(x, line)
        } else {
            self.background(x, line)
        }
    }

    /// Height of every sprite, in lines.
    pub open spec fn sprite_height(self) -> int {
        if self.lcdc & 0x04 != 0 {
            16
        } else {
            8
        }
    }

    pub open spec fn sprite_y(self, i: int) -> u8 {
        self.oam[4 * i]
    }

    pub open spec fn sprite_x(self, i: int) -> u8 {
        self.oam[4 * i + 1]
    }

    pub open spec fn sprite_tile(self, i: int) -> u8 {
        self.oam[4 * i + 2]
    }

    /// Bit 7: behind the backdrop; bit 6: flipped top to bottom; bit 5:
    /// flipped left to right; bit 4: second object palette.
    pub open spec fn sprite_flags(self, i: int) -> u8 {
        self.oam[4 * i + 3]
    }

    /// Sprite `i` has a row on `line`.
    pub open spec fn sprite_on_line(self, i: int, line: int) -> bool {
        self.sprite_y(i) <= line + 16 < self.sprite_y(i) + self.sprite_height()
    }

    /// How many of the sprites before `i` have a row on `line`.
    pub open spec fn sprites_before(self, i: int, line: int) -> nat
        decreases i,
    {
        if i <= 0 {
            0
        } else {
            self.sprites_before(i - 1, line) + if self.sprite_on_line(i - 1, line) {
                1nat
            } else {
                0nat
            }
        }
    }

    /// Sprite `i` is one of the ten that the scan of `line` keeps: the first
    /// ten, in table order, that have a row on it.
    pub open spec fn sprite_selected(self, i: int, line: int) -> bool {
        self.sprite_on_line(i, line) && self.sprites_before(i, line) < 10
    }

    /// How many of the first `n` sprites the scan of `line` keeps.
    pub open spec fn sprites_kept(self, n: int, line: int) -> nat
        decreases n,
    {
        if n <= 0 {
            0
        } else {
            self.sprites_kept(n - 1, line) + if self.sprite_selected(n - 1, line) {
                1nat
            } else {
                0nat
            }
        }
    }

    /// Sprite `i` spans screen column `x`.
    pub open spec fn sprite_covers(self, i: int, x: int) -> bool {
        self.sprite_x(i) <= x + 8 < self.sprite_x(i) + 8
    }

    /// Colour index of sprite `i` at screen column `x` of `line`, for a
    /// sprite that has a row there and spans the column.
    pub open spec fn sprite_pixel(self, i: int, x: int, line: int) -> u8 {
        let down = line + 16 - self.sprite_y(i);
        let row = if self.sprite_flags(i) & 0x40 != 0 {
            self.sprite_height() - 1 - down
        } else {
            down
        };
        let across = x + 8 - self.sprite_x(i);
        let col = if self.sprite_flags(i) & 0x20 != 0 {
            7 - across
        } else {
            across
        };
        let tile = if self.lcdc & 0x04 != 0 {
            self.sprite_tile(i) & 0xFE
        } else {
            self.sprite_tile(i)
        };
        let at = tile * 16 + 2 * row;
        plane_pixel(self.vram[at], self.vram[at + 1], col as u8)
    }

    /// Sprite `i` puts a colour at screen column `x` of `line`: it was kept
    /// by the scan, spans the column and is not transparent there.
    pub open spec fn sprite_shows(self, i: int, x: int, line: int) -> bool {
        &&& self.sprite_selected(i, line)
        &&& self.sprite_covers(i, x)
        &&& self.sprite_pixel(i, x, line) != 0
    }

    /// Sprite `i` is drawn over sprite `j` where both show: the one further
    /// left, and of two at the same column the one earlier in the table.
    pub open spec fn sprite_before(self, i: int, j: int) -> bool {
        self.sprite_x(i) < self.sprite_x(j) || (self.sprite_x(i) == self.sprite_x(j) && i <= j)
    }

    /// The sprite among the first `n` that is drawn on top at screen column
    /// `x` of `line`, if any of them shows there.
    pub open spec fn front_sprite(self, n: int, x: int, line: int) -> Option<int>
        decreases n,
    {
        if n <= 0 {
            None
        } else {
            match self.front_sprite(n - 1, x, line) {
                None => if self.sprite_shows(n - 1, x, line) {
                    Some(n - 1)
                } else {
                    None
                },
                Some(j) => if self.sprite_shows(n - 1, x, line) && self.sprite_x(n - 1)
                    < self.sprite_x(j) {
                    Some(n - 1)
                } else {
                    Some(j)
                },
            }
        }
    }

    /// Colour index of the picture at screen column `x` of `line`. With the
    /// display off every pixel is 0. Else the sprite on top wins over the
    /// backdrop unless it is flagged as lying behind it and the backdrop is
    /// not 0.
    pub open spec fn pixel(self, x: int, line: int) -> u8 {
        if self.lcdc & 0x80 == 0 {
            0
        } else if self.lcdc & 0x02 == 0 {
            self.backdrop(x, line)
        } else {
            match self.front_sprite(40, x, line) {
                None => self.backdrop(x, line),
                Some(i) => if self.sprite_flags(i) & 0x80 != 0 && self.backdrop(x, line) != 0 {
                    self.backdrop(x, line)
                } else {
                    self.sprite_pixel(i, x, line)
                },
            }
        }
    }
}

impl GpuView {
    /// What the scanlines are drawn from.
    pub open spec fn scene(self) -> Scene {
        Scene {
            vram: self.vram,
            oam: self.oam,
            lcdc: self.lcdc,
            scy: self.scy,
            scx: self.scx,
            wy: self.wy,
            wx: self.wx,
        }
    }

    /// The controller with `line` of the frame drawn afresh.
    pub open spec fn with_line(self, line: int) -> GpuView {
        GpuView {
            frame: Seq::new(
                23040,
                |i: int|
                    if i / 160 == line {
                        self.scene().pixel(i % 160, line)
                    } else {
                        self.frame[i]
                    },
            ),
            ..self
        }
    }

    /// Within the next `n` clock periods the controller moves on to the
    /// start of `line`.
    pub open spec fn starts_line(self, n: int, line: int) -> bool {
        let t = self.dot();
        (t < line * 456 <= t + n) || (t < line * 456 + 70224 <= t + n)
    }

    /// Within the next `n` clock periods the drawing of the visible line
    /// `line` completes.
    pub open spec fn draws_line(self, n: int, line: int) -> bool {
        let t = self.dot();
        let due = line * 456 + 252;
        0 <= line < 144 && ((t < due <= t + n) || (t < due + 70224 <= t + n))
    }

    /// The start of `line` asks for a status interrupt: on entering
    /// vertical blank with bit 4 of the enables, on entering the sprite scan
    /// of a visible line with bit 5, on reaching the compare line with bit 6.
    pub open spec fn line_asks(self, line: int) -> bool {
        ||| line == 144 && self.stat & 0x10 != 0
        ||| line < 144 && self.stat & 0x20 != 0
        ||| line == self.lyc && self.stat & 0x40 != 0
    }

    /// Within the next `n` clock periods `line` gives rise to a status
    /// interrupt: its drawing completes with bit 3 of the enables set, or it
    /// starts and its start asks for one.
    pub open spec fn stat_event(self, n: int, line: int) -> bool {
        ||| self.draws_line(n, line) && self.stat & 0x08 != 0
        ||| self.starts_line(n, line) && self.line_asks(line)
    }

    /// Within the next `n` clock periods a status interrupt is raised.
    pub open spec fn stat_raised(self, n: int) -> bool {
        exists|line: int| 0 <= line < 154 && #[trigger] self.stat_event(n, line)
    }

    /// Within the next `n` clock periods vertical blank is entered.
    pub open spec fn vblank_raised(self, n: int) -> bool {
        self.starts_line(n, 144)
    }

    /// The controller after `n` clock periods: the position in the frame has
    /// moved on, modulo the frame, and every visible line whose drawing
    /// completed on the way has been drawn.
    pub open spec fn advanced(self, n: int) -> GpuView {
        let t = (self.dot() + n) % 70224;
        GpuView {
            ly: (t / 456) as u8,
            clock: (t % 456) as u16,
            frame: Seq::new(
                23040,
                |i: int|
                    if self.draws_line(n, i / 160) {
                        self.scene().pixel(i % 160, i / 160)
                    } else {
                        self.frame[i]
                    },
            ),
            ..self
        }
    }
}


/// A decoded pixel is a colour index: at most 3.
pub proof fn lemma_plane_pixel_range(low: u8, high: u8, col: u8)
    ensures
        plane_pixel(low, high, col) <= 3,
{
    let shift = (7 - col) as u8;
    let color = plane_pixel(low, high, col);
    assert(color <= 3) by (bit_vector)
        requires
            color == (((high >> shift) & 0x01) << 1u8) | ((low >> shift) & 0x01),
    ;
}

/// Every pixel of the picture is a colour index: at most 3.
pub proof fn lemma_pixel_range(scene: Scene, x: int, line: int)
    ensures
        scene.pixel(x, line) <= 3,
{
    assert forall|low: u8, high: u8, col: u8| #[trigger] plane_pixel(low, high, col) <= 3 by {
        lemma_plane_pixel_range(low, high, col);
    }
}

/// The scan of a line keeps every sprite that has a row on it until it has
/// kept ten, and none after that: it never keeps more than ten.
pub proof fn lemma_scan_keeps_ten(scene: Scene, n: int, line: int)
    requires
        0 <= n,
    ensures
        scene.sprites_kept(n, line) == if scene.sprites_before(n, line) <= 10 {
            scene.sprites_before(n, line)
        } else {
            10
        },
        scene.sprites_kept(n, line) <= 10,
    decreases n,
{
    if n > 0 {
        lemma_scan_keeps_ten(scene, n - 1, line);
    }
}

/// The sprite on top is one that shows at the pixel, and it comes before
/// every other sprite that shows there: further left, or at the same
/// column and earlier in the table. No sprite is on top exactly when none
/// of the first `n` shows at the pixel.
pub proof fn lemma_front_sprite(scene: Scene, n: int, x: int, line: int)
    requires
        0 <= n,
    ensures
        match scene.front_sprite(n, x, line) {
            Some(i) => {
                &&& 0 <= i < n
                &&& scene.sprite_shows(i, x, line)
                &&& forall|j: int|
                    0 <= j < n && #[trigger] scene.sprite_shows(j, x, line)
                        ==> scene.sprite_before(i, j)
            },
            None => forall|j: int| 0 <= j < n ==> !#[trigger] scene.sprite_shows(j, x, line),
        },
    decreases n,
{
    if n > 0 {
        lemma_front_sprite(scene, n - 1, x, line);
    }
}

/// Advancing keeps a controller well formed, leaves everything but the
/// position and the frame alone, and moves the position by the periods that
/// passed, modulo the frame.
pub proof fn lemma_advanced(view: GpuView, n: int)
    requires
        view.wf(),
        0 <= n,
    ensures
        view.advanced(n).wf(),
        view.advanced(n).dot() == (view.dot() + n) % 70224,
        view.advanced(n).ly == ((view.dot() + n) % 70224) / 456,
        view.advanced(n).scene() == view.scene(),
        view.advanced(n) == (GpuView {
            ly: view.advanced(n).ly,
            clock: view.advanced(n).clock,
            frame: view.advanced(n).frame,
            ..view
        }),
{
    assert forall|i: int| 0 <= i < 23040 implies #[trigger] view.advanced(n).frame[i] <= 3 by {
        lemma_pixel_range(view.scene(), i % 160, i / 160);
    }
}

/// A point of the frame is reached within a stretch of periods exactly when
/// it is reached within the first part of the stretch or within the rest.
proof fn lemma_stretch_splits(t: int, a: int, b: int, due: int)
    requires
        0 <= t < 70224,
        0 <= a,
        0 <= b,
        a + b <= 70224,
        0 <= due < 70224,
    ensures
        ({
            let m = (t + a) % 70224;
            ((t < due <= t + a + b) || (t < due + 70224 <= t + a + b)) == (((t < due <= t + a) || (t
                < due + 70224 <= t + a)) || ((m < due <= m + b) || (m < due + 70224 <= m + b)))
        }),
{
}

/// What happens to a line within a stretch of periods happens within the
/// first part of the stretch or within the rest.
proof fn lemma_events_split(view: GpuView, a: int, b: int, line: int)
    requires
        view.wf(),
        0 <= a,
        0 <= b,
        a + b <= 70224,
        0 <= line < 154,
    ensures
        view.draws_line(a + b, line) == (view.draws_line(a, line) || view.advanced(a).draws_line(
            b,
            line,
        )),
        view.starts_line(a + b, line) == (view.starts_line(a, line) || view.advanced(
            a,
        ).starts_line(b, line)),
        view.stat_event(a + b, line) == (view.stat_event(a, line) || view.advanced(a).stat_event(
            b,
            line,
        )),
{
    lemma_advanced(view, a);
    lemma_stretch_splits(view.dot(), a, b, line * 456);
    if line < 144 {
        lemma_stretch_splits(view.dot(), a, b, line * 456 + 252);
    }
    let mid = view.advanced(a);
    assert(mid.stat == view.stat && mid.lyc == view.lyc);
    assert(mid.line_asks(line) == view.line_asks(line));
}

/// Advancing in two steps is advancing once by the sum, as long as the two
/// steps together stay within one frame: the same position, the same lines
/// drawn, the same interrupts raised.
pub proof fn lemma_advanced_composes(view: GpuView, a: int, b: int)
    requires
        view.wf(),
        0 <= a,
        0 <= b,
        a + b <= 70224,
    ensures
        view.advanced(a).advanced(b) == view.advanced(a + b),
        view.vblank_raised(a + b) == (view.vblank_raised(a) || view.advanced(a).vblank_raised(b)),
        view.stat_raised(a + b) == (view.stat_raised(a) || view.advanced(a).stat_raised(b)),
{
    lemma_advanced(view, a);
    let mid = view.advanced(a);
    lemma_events_split(view, a, b, 144);
    if view.stat_raised(a) {
        let w = choose|line: int| 0 <= line < 154 && #[trigger] view.stat_event(a, line);
        lemma_events_split(view, a, b, w);
    }
    if mid.stat_raised(b) {
        let w = choose|line: int| 0 <= line < 154 && #[trigger] mid.stat_event(b, line);
        lemma_events_split(view, a, b, w);
    }
    if view.stat_raised(a + b) {
        let w = choose|line: int| 0 <= line < 154 && #[trigger] view.stat_event(a + b, line);
        lemma_events_split(view, a, b, w);
    }
    assert forall|i: int| 0 <= i < 23040 implies view.advanced(a + b).frame[i] == mid.advanced(
        b,
    ).frame[i] by {
        lemma_events_split(view, a, b, i / 160);
    }
    assert(view.advanced(a + b).frame =~= mid.advanced(b).frame);
    lemma_position_adds(view.dot(), a, b);
}

/// Moving on by `a` periods and then by `b`, each time modulo the frame, is
/// moving on by `a + b`.
proof fn lemma_position_adds(t: int, a: int, b: int)
    requires
        0 <= t < 70224,
        0 <= a,
        0 <= b,
        a + b <= 70224,
    ensures
        ((t + a) % 70224 + b) % 70224 == (t + a + b) % 70224,
{
}

/// One frame is 70224 clock periods: after that many the line counter and
/// the position within the line are what they were, every visible line has
/// been drawn, every line has started once, and vertical blank was entered.
pub proof fn lemma_frame_period(view: GpuView)
    requires
        view.wf(),
    ensures
        view.advanced(70224).ly == view.ly,
        view.advanced(70224).clock == view.clock,
        forall|line: int| 0 <= line < 144 ==> #[trigger] view.draws_line(70224, line),
        forall|line: int| 0 <= line < 154 ==> #[trigger] view.starts_line(70224, line),
        view.vblank_raised(70224),
{
}

/// The line counter is the position in the frame divided by the length of
/// a line: it steps from 0 to 153, one line every 456 periods, and the
/// start of a line is reached exactly when the counter moves on to it.
pub proof fn lemma_line_counter(view: GpuView, n: int, line: int)
    requires
        view.wf(),
        0 <= n < 456,
        0 <= line < 154,
    ensures
        view.ly == view.dot() / 456,
        view.starts_line(n, line) <==> view.advanced(n).ly == line && view.ly != line,
{
}

/// The status interrupt has four sources, each behind its enable bit: the
/// end of the drawing of a visible line (bit 3), the start of vertical
/// blank (bit 4), the start of a visible line (bit 5), and the start of the
/// line that the compare register names (bit 6).
pub proof fn lemma_stat_sources(view: GpuView, n: int)
    requires
        view.wf(),
    ensures
        view.stat_raised(n) <==> {
            ||| view.stat & 0x08 != 0 && exists|line: int|
                0 <= line < 144 && #[trigger] view.draws_line(n, line)
            ||| view.stat & 0x10 != 0 && view.starts_line(n, 144)
            ||| view.stat & 0x20 != 0 && exists|line: int|
                0 <= line < 144 && #[trigger] view.starts_line(n, line)
            ||| view.stat & 0x40 != 0 && view.lyc < 154 && view.starts_line(n, view.lyc as int)
        },
{
    if view.stat_raised(n) {
        let w = choose|line: int| 0 <= line < 154 && #[trigger] view.stat_event(n, line);
        if view.draws_line(n, w) && view.stat & 0x08 != 0 {
        } else {
            assert(view.starts_line(n, w) && view.line_asks(w));
        }
    }
    if view.stat & 0x08 != 0 && exists|line: int|
        0 <= line < 144 && #[trigger] view.draws_line(n, line) {
        let w = choose|line: int| 0 <= line < 144 && #[trigger] view.draws_line(n, line);
        assert(view.stat_event(n, w));
    }
    if view.stat & 0x10 != 0 && view.starts_line(n, 144) {
        assert(view.stat_event(n, 144));
    }
    if view.stat & 0x20 != 0 && exists|line: int|
        0 <= line < 144 && #[trigger] view.starts_line(n, line) {
        let w = choose|line: int| 0 <= line < 144 && #[trigger] view.starts_line(n, line);
        assert(view.stat_event(n, w));
    }
    if view.stat & 0x40 != 0 && view.lyc < 154 && view.starts_line(n, view.lyc as int) {
        assert(view.stat_event(n, view.lyc as int));
    }
}

} // verus!
