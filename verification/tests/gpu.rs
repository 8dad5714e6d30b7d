use qoboy::soc::nvic::Nvic;
use qoboy::soc::peripheral::gpu::{decode_plane_pixel, Gpu};

/// Runs the controller to the end of the drawing period of `line`, from
/// the top of the frame.
fn draw_through(gpu: &mut Gpu, nvic: &mut Nvic, line: usize) {
    for _ in 0..line {
        gpu.run(114, nvic);
    }
    gpu.run(63, nvic);
}

fn row(gpu: &Gpu, line: usize, count: usize) -> Vec<u8> {
    (0..count).map(|x| gpu.get_frame_buffer(line * 160 + x)).collect()
}

fn put_tile_row(gpu: &mut Gpu, at: u16, low: u8, high: u8) {
    gpu.write_vram(at, low);
    gpu.write_vram(at + 1, high);
}

fn put_sprite(gpu: &mut Gpu, index: usize, y: u8, x: u8, tile: u8, flags: u8) {
    gpu.write_oam(4 * index, y);
    gpu.write_oam(4 * index + 1, x);
    gpu.write_oam(4 * index + 2, tile);
    gpu.write_oam(4 * index + 3, flags);
}

/// A controller whose video memory is zero, with the tile at `0x0010`
/// (tile 1) filled by rows of the pattern 3 2 1 0 3 2 1 0.
fn blank_gpu() -> Gpu {
    let mut gpu = Gpu::new();
    for address in 0..0x2000u16 {
        gpu.write_vram(address, 0x00);
    }
    for line in 0..8u16 {
        put_tile_row(&mut gpu, 0x0010 + 2 * line, 0xAA, 0xCC);
    }
    gpu
}

#[test]
fn plane_pixel_decodes_bit_7_first() {
    let expected: [u8; 8] = [3, 2, 1, 0, 3, 2, 1, 0];
    for col in 0..8u8 {
        assert_eq!(decode_plane_pixel(0xAA, 0xCC, col), expected[col as usize]);
    }
    assert_eq!(decode_plane_pixel(0x80, 0x00, 0), 1);
    assert_eq!(decode_plane_pixel(0x00, 0x80, 0), 2);
    assert_eq!(decode_plane_pixel(0x01, 0x01, 7), 3);
    assert_eq!(decode_plane_pixel(0x01, 0x01, 6), 0);
}

#[test]
fn gpu_power_on_state() {
    let gpu = Gpu::new();
    assert_eq!(gpu.read_vram(0x0000), 0xFF);
    assert_eq!(gpu.read_vram(0x1FFF), 0xFF);
    assert_eq!(gpu.read_oam(0), 0x00);
    assert_eq!(gpu.read_oam(159), 0x00);
    assert_eq!(gpu.get_frame_buffer(0), 0);
    assert_eq!(gpu.get_frame_buffer(23039), 0);
    assert_eq!(gpu.control_to_byte(), 0);
    assert_eq!(gpu.get_current_line(), 0);
    assert_eq!(gpu.get_mode(), 2);
    assert_eq!(gpu.status_to_byte(), 0x86);
}

#[test]
fn gpu_modes_follow_the_line_timing() {
    let mut gpu = Gpu::new();
    let mut nvic = Nvic::new();
    assert_eq!(gpu.get_mode(), 2);
    gpu.run(19, &mut nvic);
    assert_eq!(gpu.get_mode(), 2);
    gpu.run(1, &mut nvic);
    assert_eq!(gpu.get_mode(), 3);
    gpu.run(42, &mut nvic);
    assert_eq!(gpu.get_mode(), 3);
    gpu.run(1, &mut nvic);
    assert_eq!(gpu.get_mode(), 0);
    gpu.run(50, &mut nvic);
    assert_eq!(gpu.get_mode(), 0);
    assert_eq!(gpu.get_current_line(), 0);
    gpu.run(1, &mut nvic);
    assert_eq!(gpu.get_mode(), 2);
    assert_eq!(gpu.get_current_line(), 1);
}

#[test]
fn gpu_line_counter_cycles_through_154_lines() {
    let mut gpu = Gpu::new();
    let mut nvic = Nvic::new();
    for line in 0..154u32 {
        assert_eq!(gpu.get_current_line() as u32, line);
        assert_eq!(gpu.get_mode(), if line >= 144 { 1 } else { 2 });
        gpu.run(114, &mut nvic);
    }
    assert_eq!(gpu.get_current_line(), 0);
    assert_eq!(gpu.get_mode(), 2);
}

#[test]
fn gpu_frame_takes_70224_clock_periods_whatever_the_steps() {
    let mut gpu = Gpu::new();
    let mut nvic = Nvic::new();
    gpu.run(7, &mut nvic);
    let mut cycles: u32 = 0;
    // 17556 machine cycles in steps of uneven size
    let steps: [u8; 5] = [1, 24, 255, 5, 12];
    let mut next = 0;
    while cycles < 17556 {
        let step = steps[next % 5] as u32;
        let step = if cycles + step > 17556 { 17556 - cycles } else { step };
        gpu.run(step as u8, &mut nvic);
        cycles += step;
        next += 1;
    }
    // the same position as after the first seven cycles
    assert_eq!(gpu.get_current_line(), 0);
    assert_eq!(gpu.get_mode(), 2);
    gpu.run(12, &mut nvic);
    assert_eq!(gpu.get_mode(), 2);
    gpu.run(1, &mut nvic);
    assert_eq!(gpu.get_mode(), 3);
}

#[test]
fn gpu_vblank_is_raised_on_entering_line_144() {
    let mut gpu = Gpu::new();
    let mut nvic = Nvic::new();
    for _ in 0..144 {
        assert_eq!(nvic.interrupt_flag, 0x00);
        gpu.run(114, &mut nvic);
    }
    assert_eq!(gpu.get_current_line(), 144);
    assert_eq!(nvic.interrupt_flag, 0x01);
    nvic.set_it_flag(0);
    for _ in 144..154 {
        gpu.run(114, &mut nvic);
    }
    assert_eq!(nvic.interrupt_flag, 0x00);
}

#[test]
fn gpu_vblank_source_of_stat() {
    let mut gpu = Gpu::new();
    let mut nvic = Nvic::new();
    gpu.status_from_byte(0x10);
    for _ in 0..143 {
        gpu.run(114, &mut nvic);
    }
    assert_eq!(nvic.interrupt_flag, 0x00);
    gpu.run(114, &mut nvic);
    assert_eq!(nvic.interrupt_flag, 0x03);
}

#[test]
fn gpu_hblank_source_of_stat() {
    let mut gpu = Gpu::new();
    let mut nvic = Nvic::new();
    gpu.status_from_byte(0x08);
    gpu.run(62, &mut nvic);
    assert_eq!(nvic.interrupt_flag, 0x00);
    gpu.run(1, &mut nvic);
    assert_eq!(nvic.interrupt_flag, 0x02);
    assert_eq!(gpu.get_mode(), 0);
}

#[test]
fn gpu_hblank_source_is_silent_in_vblank() {
    let mut gpu = Gpu::new();
    let mut nvic = Nvic::new();
    for _ in 0..144 {
        gpu.run(114, &mut nvic);
    }
    gpu.status_from_byte(0x08);
    nvic.set_it_flag(0);
    for _ in 0..9 {
        gpu.run(114, &mut nvic);
    }
    gpu.run(113, &mut nvic);
    assert_eq!(gpu.get_current_line(), 153);
    assert_eq!(nvic.interrupt_flag, 0x00);
}

#[test]
fn gpu_oam_scan_source_of_stat() {
    let mut gpu = Gpu::new();
    let mut nvic = Nvic::new();
    gpu.status_from_byte(0x20);
    gpu.run(113, &mut nvic);
    assert_eq!(nvic.interrupt_flag, 0x00);
    gpu.run(1, &mut nvic);
    assert_eq!(nvic.interrupt_flag, 0x02);
    // not on entering a line of vertical blank
    for _ in 1..143 {
        gpu.run(114, &mut nvic);
    }
    nvic.set_it_flag(0);
    gpu.run(114, &mut nvic);
    assert_eq!(gpu.get_current_line(), 144);
    assert_eq!(nvic.interrupt_flag, 0x01);
    // but on coming back to line 0
    for _ in 144..153 {
        gpu.run(114, &mut nvic);
    }
    nvic.set_it_flag(0);
    gpu.run(114, &mut nvic);
    assert_eq!(gpu.get_current_line(), 0);
    assert_eq!(nvic.interrupt_flag, 0x02);
}

#[test]
fn gpu_coincidence_fires_when_the_line_counter_reaches_the_compare_line() {
    let mut gpu = Gpu::new();
    let mut nvic = Nvic::new();
    gpu.set_compare_line(2);
    gpu.status_from_byte(0x40);
    assert_eq!(gpu.status_to_byte() & 0x04, 0x00);
    gpu.run(114, &mut nvic);
    assert_eq!(nvic.interrupt_flag, 0x00);
    gpu.run(113, &mut nvic);
    assert_eq!(nvic.interrupt_flag, 0x00);
    gpu.run(1, &mut nvic);
    assert_eq!(gpu.get_current_line(), 2);
    assert_eq!(nvic.interrupt_flag, 0x02);
    assert_eq!(gpu.status_to_byte() & 0x04, 0x04);
    nvic.set_it_flag(0);
    gpu.run(114, &mut nvic);
    assert_eq!(nvic.interrupt_flag, 0x00);
    assert_eq!(gpu.status_to_byte() & 0x04, 0x00);
}

#[test]
fn gpu_coincidence_is_silent_when_disabled() {
    let mut gpu = Gpu::new();
    let mut nvic = Nvic::new();
    gpu.set_compare_line(1);
    gpu.run(114, &mut nvic);
    assert_eq!(gpu.get_current_line(), 1);
    assert_eq!(gpu.status_to_byte() & 0x04, 0x04);
    assert_eq!(nvic.interrupt_flag, 0x00);
}

#[test]
fn gpu_long_run_crosses_several_lines() {
    let mut gpu = Gpu::new();
    let mut nvic = Nvic::new();
    gpu.control_from_byte(0x91);
    gpu.status_from_byte(0x08);
    // 1020 clock periods: lines 0 and 1 are drawn, line 2 is under way
    gpu.run(255, &mut nvic);
    assert_eq!(gpu.get_current_line(), 2);
    assert_eq!(gpu.get_mode(), 3);
    assert_eq!(nvic.interrupt_flag, 0x02);
    assert_eq!(gpu.get_frame_buffer(0), 3);
    assert_eq!(gpu.get_frame_buffer(160), 3);
    assert_eq!(gpu.get_frame_buffer(320), 0);
}

#[test]
fn gpu_draws_a_line_when_its_drawing_period_ends() {
    let mut gpu = Gpu::new();
    let mut nvic = Nvic::new();
    gpu.control_from_byte(0x91);
    gpu.run(62, &mut nvic);
    assert_eq!(row(&gpu, 0, 160), vec![0u8; 160]);
    gpu.run(1, &mut nvic);
    // video memory is all 0xFF: every tile is tile 255, every pixel 3
    assert_eq!(row(&gpu, 0, 160), vec![3u8; 160]);
    assert_eq!(row(&gpu, 1, 160), vec![0u8; 160]);
}

#[test]
fn gpu_display_off_draws_zeroes() {
    let mut gpu = Gpu::new();
    let mut nvic = Nvic::new();
    gpu.control_from_byte(0x91);
    draw_through(&mut gpu, &mut nvic, 0);
    assert_eq!(gpu.get_frame_buffer(0), 3);
    for _ in 0..153 {
        gpu.run(114, &mut nvic);
    }
    gpu.control_from_byte(0x11);
    gpu.run(114, &mut nvic);
    assert_eq!(row(&gpu, 0, 160), vec![0u8; 160]);
}

#[test]
fn gpu_background_off_draws_zeroes() {
    let mut gpu = Gpu::new();
    let mut nvic = Nvic::new();
    gpu.control_from_byte(0x90);
    draw_through(&mut gpu, &mut nvic, 0);
    assert_eq!(row(&gpu, 0, 160), vec![0u8; 160]);
}

#[test]
fn gpu_background_tile_from_the_lower_map() {
    let mut gpu = blank_gpu();
    let mut nvic = Nvic::new();
    gpu.control_from_byte(0x91);
    // second tile of the first row of the map shows tile 1
    gpu.write_vram(0x1801, 0x01);
    draw_through(&mut gpu, &mut nvic, 0);
    assert_eq!(
        row(&gpu, 0, 24),
        vec![0, 0, 0, 0, 0, 0, 0, 0, 3, 2, 1, 0, 3, 2, 1, 0, 0, 0, 0, 0, 0, 0, 0, 0]
    );
}

#[test]
fn gpu_background_tile_row_follows_the_line() {
    let mut gpu = blank_gpu();
    let mut nvic = Nvic::new();
    gpu.control_from_byte(0x91);
    gpu.write_vram(0x1800, 0x01);
    // row 3 of tile 1 is given another pattern
    put_tile_row(&mut gpu, 0x0010 + 6, 0xFF, 0x00);
    draw_through(&mut gpu, &mut nvic, 3);
    assert_eq!(row(&gpu, 2, 8), vec![3, 2, 1, 0, 3, 2, 1, 0]);
    assert_eq!(row(&gpu, 3, 8), vec![1, 1, 1, 1, 1, 1, 1, 1]);
}

#[test]
fn gpu_background_upper_map() {
    let mut gpu = blank_gpu();
    let mut nvic = Nvic::new();
    gpu.control_from_byte(0x99);
    gpu.write_vram(0x1800, 0x01);
    draw_through(&mut gpu, &mut nvic, 0);
    assert_eq!(row(&gpu, 0, 8), vec![0u8; 8]);
    gpu.write_vram(0x1C00, 0x01);
    for _ in 0..154 {
        gpu.run(114, &mut nvic);
    }
    assert_eq!(row(&gpu, 0, 8), vec![3, 2, 1, 0, 3, 2, 1, 0]);
}

#[test]
fn gpu_background_scrolls_and_wraps() {
    let mut gpu = blank_gpu();
    let mut nvic = Nvic::new();
    gpu.control_from_byte(0x91);
    gpu.write_vram(0x1800, 0x01);
    put_tile_row(&mut gpu, 0x0010 + 10, 0x0F, 0x00);
    gpu.set_scx(3);
    gpu.set_scy(5);
    draw_through(&mut gpu, &mut nvic, 0);
    // line 0 shows map row 5, from map column 3
    assert_eq!(row(&gpu, 0, 8), vec![0, 1, 1, 1, 1, 0, 0, 0]);
    // the map is 256 pixels wide: column 253 of the screen is map column 0
    for _ in 0..154 {
        gpu.run(114, &mut nvic);
    }
    gpu.set_scx(0);
    gpu.set_scy(0);
    gpu.set_scx(250);
    for _ in 0..154 {
        gpu.run(114, &mut nvic);
    }
    assert_eq!(row(&gpu, 0, 14), vec![0, 0, 0, 0, 0, 0, 3, 2, 1, 0, 3, 2, 1, 0]);
}

#[test]
fn gpu_background_scroll_wraps_vertically() {
    let mut gpu = blank_gpu();
    let mut nvic = Nvic::new();
    gpu.control_from_byte(0x91);
    gpu.write_vram(0x1800, 0x01);
    gpu.set_scy(255);
    draw_through(&mut gpu, &mut nvic, 1);
    // line 0 shows map row 255, line 1 shows map row 0
    assert_eq!(row(&gpu, 0, 8), vec![0u8; 8]);
    assert_eq!(row(&gpu, 1, 8), vec![3, 2, 1, 0, 3, 2, 1, 0]);
}

#[test]
fn gpu_signed_tile_addressing() {
    let mut gpu = blank_gpu();
    let mut nvic = Nvic::new();
    // bit 4 clear: tile 0 is at 0x1000, tile 0x80 at 0x0800, tile 0xFF at 0x0FF0
    gpu.control_from_byte(0x81);
    put_tile_row(&mut gpu, 0x1000, 0xFF, 0x00);
    put_tile_row(&mut gpu, 0x0800, 0x00, 0xFF);
    put_tile_row(&mut gpu, 0x0FF0, 0xFF, 0xFF);
    put_tile_row(&mut gpu, 0x17F0, 0xF0, 0x0F);
    gpu.write_vram(0x1800, 0x00);
    gpu.write_vram(0x1801, 0x80);
    gpu.write_vram(0x1802, 0xFF);
    gpu.write_vram(0x1803, 0x7F);
    draw_through(&mut gpu, &mut nvic, 0);
    assert_eq!(row(&gpu, 0, 8), vec![1u8; 8]);
    assert_eq!(row(&gpu, 0, 16)[8..], [2u8; 8]);
    assert_eq!(row(&gpu, 0, 24)[16..], [3u8; 8]);
    assert_eq!(row(&gpu, 0, 32)[24..], [1, 1, 1, 1, 2, 2, 2, 2]);
}

#[test]
fn gpu_window_replaces_the_background() {
    let mut gpu = blank_gpu();
    let mut nvic = Nvic::new();
    // display, window on the upper map, background on the lower one
    gpu.control_from_byte(0xF1);
    gpu.write_vram(0x1C00, 0x01);
    gpu.set_window_x(7 + 4);
    gpu.set_window_y(1);
    draw_through(&mut gpu, &mut nvic, 1);
    // line 0 lies above the window
    assert_eq!(row(&gpu, 0, 16), vec![0u8; 16]);
    // on line 1 the window starts at column 4 with its own first pixel
    assert_eq!(row(&gpu, 1, 16), vec![0, 0, 0, 0, 3, 2, 1, 0, 3, 2, 1, 0, 0, 0, 0, 0]);
}

#[test]
fn gpu_window_left_of_the_screen() {
    let mut gpu = blank_gpu();
    let mut nvic = Nvic::new();
    gpu.control_from_byte(0xF1);
    gpu.write_vram(0x1C00, 0x01);
    gpu.set_window_x(5);
    draw_through(&mut gpu, &mut nvic, 0);
    // the first two columns of the window lie off the screen
    assert_eq!(row(&gpu, 0, 8), vec![1, 0, 3, 2, 1, 0, 0, 0]);
}

#[test]
fn gpu_window_does_not_need_the_background() {
    let mut gpu = blank_gpu();
    let mut nvic = Nvic::new();
    gpu.control_from_byte(0xF0);
    gpu.write_vram(0x1C00, 0x01);
    gpu.set_window_x(7);
    draw_through(&mut gpu, &mut nvic, 0);
    assert_eq!(row(&gpu, 0, 8), vec![3, 2, 1, 0, 3, 2, 1, 0]);
}

#[test]
fn gpu_sprite_over_the_background() {
    let mut gpu = blank_gpu();
    let mut nvic = Nvic::new();
    gpu.control_from_byte(0x93);
    put_sprite(&mut gpu, 0, 16, 8 + 2, 1, 0x00);
    draw_through(&mut gpu, &mut nvic, 0);
    // colour 0 of the sprite lets the backdrop through
    assert_eq!(row(&gpu, 0, 12), vec![0, 0, 3, 2, 1, 0, 3, 2, 1, 0, 0, 0]);
}

#[test]
fn gpu_sprites_need_their_enable_bit() {
    let mut gpu = blank_gpu();
    let mut nvic = Nvic::new();
    gpu.control_from_byte(0x91);
    put_sprite(&mut gpu, 0, 16, 8, 1, 0x00);
    draw_through(&mut gpu, &mut nvic, 0);
    assert_eq!(row(&gpu, 0, 8), vec![0u8; 8]);
}

#[test]
fn gpu_sprite_rows_and_vertical_extent() {
    let mut gpu = blank_gpu();
    let mut nvic = Nvic::new();
    gpu.control_from_byte(0x93);
    put_tile_row(&mut gpu, 0x0010 + 14, 0xFF, 0xFF);
    put_sprite(&mut gpu, 0, 16 + 2, 8, 1, 0x00);
    draw_through(&mut gpu, &mut nvic, 10);
    assert_eq!(row(&gpu, 1, 8), vec![0u8; 8]);
    assert_eq!(row(&gpu, 2, 8), vec![3, 2, 1, 0, 3, 2, 1, 0]);
    assert_eq!(row(&gpu, 9, 8), vec![3u8; 8]);
    assert_eq!(row(&gpu, 10, 8), vec![0u8; 8]);
}

#[test]
fn gpu_sprite_flips() {
    let mut gpu = blank_gpu();
    let mut nvic = Nvic::new();
    gpu.control_from_byte(0x93);
    put_tile_row(&mut gpu, 0x0010 + 14, 0xFF, 0xFF);
    put_sprite(&mut gpu, 0, 16, 8, 1, 0x20);
    put_sprite(&mut gpu, 1, 16, 24, 1, 0x40);
    draw_through(&mut gpu, &mut nvic, 7);
    // flipped left to right
    assert_eq!(row(&gpu, 0, 8), vec![0, 1, 2, 3, 0, 1, 2, 3]);
    // flipped top to bottom: the last row of the tile comes first
    assert_eq!(row(&gpu, 0, 24)[16..], [3u8; 8]);
    assert_eq!(row(&gpu, 7, 24)[16..], [3, 2, 1, 0, 3, 2, 1, 0]);
}

#[test]
fn gpu_tall_sprites_span_two_tiles() {
    let mut gpu = blank_gpu();
    let mut nvic = Nvic::new();
    gpu.control_from_byte(0x97);
    // tiles 2 and 3: the odd tile number 3 names the same pair
    for line in 0..8u16 {
        put_tile_row(&mut gpu, 0x0020 + 2 * line, 0xFF, 0x00);
        put_tile_row(&mut gpu, 0x0030 + 2 * line, 0x00, 0xFF);
    }
    put_sprite(&mut gpu, 0, 16, 8, 3, 0x00);
    put_sprite(&mut gpu, 1, 16, 24, 2, 0x40);
    draw_through(&mut gpu, &mut nvic, 16);
    assert_eq!(row(&gpu, 0, 8), vec![1u8; 8]);
    assert_eq!(row(&gpu, 7, 8), vec![1u8; 8]);
    assert_eq!(row(&gpu, 8, 8), vec![2u8; 8]);
    assert_eq!(row(&gpu, 15, 8), vec![2u8; 8]);
    assert_eq!(row(&gpu, 16, 8), vec![0u8; 8]);
    // flipped top to bottom, the lower tile comes first
    assert_eq!(row(&gpu, 0, 24)[16..], [2u8; 8]);
    assert_eq!(row(&gpu, 15, 24)[16..], [1u8; 8]);
}

#[test]
fn gpu_sprite_behind_the_backdrop() {
    let mut gpu = blank_gpu();
    let mut nvic = Nvic::new();
    gpu.control_from_byte(0x93);
    // backdrop: tile 2, colours 1 1 1 1 0 0 0 0
    put_tile_row(&mut gpu, 0x0020, 0xF0, 0x00);
    gpu.write_vram(0x1800, 0x02);
    put_sprite(&mut gpu, 0, 16, 8, 1, 0x80);
    draw_through(&mut gpu, &mut nvic, 0);
    // the backdrop wins where it is not 0; the sprite shows where it is
    assert_eq!(row(&gpu, 0, 8), vec![1, 1, 1, 1, 3, 2, 1, 0]);
}

#[test]
fn gpu_sprite_further_left_is_on_top() {
    let mut gpu = blank_gpu();
    let mut nvic = Nvic::new();
    gpu.control_from_byte(0x93);
    for line in 0..8u16 {
        put_tile_row(&mut gpu, 0x0020 + 2 * line, 0xFF, 0x00);
        put_tile_row(&mut gpu, 0x0030 + 2 * line, 0x00, 0xFF);
    }
    // sprite 0 at column 4, sprite 1 at column 0: sprite 1 is further left
    put_sprite(&mut gpu, 0, 16, 8 + 4, 2, 0x00);
    put_sprite(&mut gpu, 1, 16, 8, 3, 0x00);
    draw_through(&mut gpu, &mut nvic, 0);
    assert_eq!(row(&gpu, 0, 12), vec![2, 2, 2, 2, 2, 2, 2, 2, 1, 1, 1, 1]);
}

#[test]
fn gpu_sprite_earlier_in_the_table_wins_a_tie() {
    let mut gpu = blank_gpu();
    let mut nvic = Nvic::new();
    gpu.control_from_byte(0x93);
    for line in 0..8u16 {
        put_tile_row(&mut gpu, 0x0020 + 2 * line, 0xFF, 0x00);
        put_tile_row(&mut gpu, 0x0030 + 2 * line, 0x00, 0xFF);
    }
    put_sprite(&mut gpu, 3, 16, 8, 2, 0x00);
    put_sprite(&mut gpu, 7, 16, 8, 3, 0x00);
    draw_through(&mut gpu, &mut nvic, 0);
    assert_eq!(row(&gpu, 0, 8), vec![1u8; 8]);
}

#[test]
fn gpu_transparent_pixels_of_the_top_sprite_show_the_next_one() {
    let mut gpu = blank_gpu();
    let mut nvic = Nvic::new();
    gpu.control_from_byte(0x93);
    for line in 0..8u16 {
        put_tile_row(&mut gpu, 0x0020 + 2 * line, 0xFF, 0x00);
    }
    // tile 1 has colour 0 in columns 3 and 7
    put_sprite(&mut gpu, 0, 16, 8, 1, 0x00);
    put_sprite(&mut gpu, 1, 16, 9, 2, 0x00);
    draw_through(&mut gpu, &mut nvic, 0);
    assert_eq!(row(&gpu, 0, 9), vec![3, 2, 1, 1, 3, 2, 1, 1, 1]);
}

#[test]
fn gpu_scan_keeps_the_first_ten_sprites_of_a_line() {
    let mut gpu = blank_gpu();
    let mut nvic = Nvic::new();
    gpu.control_from_byte(0x93);
    for line in 0..8u16 {
        put_tile_row(&mut gpu, 0x0020 + 2 * line, 0xFF, 0x00);
    }
    // twelve sprites on line 0, eight pixels apart; one before them on
    // another line does not count
    put_sprite(&mut gpu, 0, 100, 8, 2, 0x00);
    for index in 0..12usize {
        put_sprite(&mut gpu, 1 + index, 16, 8 + 8 * index as u8, 2, 0x00);
    }
    draw_through(&mut gpu, &mut nvic, 0);
    assert_eq!(row(&gpu, 0, 80), vec![1u8; 80]);
    assert_eq!(row(&gpu, 0, 96)[80..], [0u8; 16]);
}

#[test]
fn gpu_sprite_partly_off_the_left_edge() {
    let mut gpu = blank_gpu();
    let mut nvic = Nvic::new();
    gpu.control_from_byte(0x93);
    put_sprite(&mut gpu, 0, 16, 3, 1, 0x00);
    put_sprite(&mut gpu, 1, 16, 0, 1, 0x00);
    draw_through(&mut gpu, &mut nvic, 0);
    // columns 5, 6 and 7 of the tile are on the screen
    assert_eq!(row(&gpu, 0, 4), vec![2, 1, 0, 0]);
}

#[test]
fn gpu_palette_maps_indices_to_grey() {
    let mut gpu = Gpu::new();
    gpu.set_background_palette(0xE4);
    assert_eq!(gpu.get_bg_pixel_color_from_palette(0), 0xFF);
    assert_eq!(gpu.get_bg_pixel_color_from_palette(1), 0xAA);
    assert_eq!(gpu.get_bg_pixel_color_from_palette(2), 0x55);
    assert_eq!(gpu.get_bg_pixel_color_from_palette(3), 0x00);
    gpu.set_background_palette(0x1B);
    assert_eq!(gpu.get_bg_pixel_color_from_palette(0), 0x00);
    assert_eq!(gpu.get_bg_pixel_color_from_palette(1), 0x55);
    assert_eq!(gpu.get_bg_pixel_color_from_palette(2), 0xAA);
    assert_eq!(gpu.get_bg_pixel_color_from_palette(3), 0xFF);
    assert_eq!(gpu.get_background_palette(), 0x1B);
}

#[test]
fn gpu_frame_holds_indices_before_the_palette() {
    let mut gpu = blank_gpu();
    let mut nvic = Nvic::new();
    gpu.control_from_byte(0x91);
    gpu.set_background_palette(0x00);
    gpu.write_vram(0x1800, 0x01);
    draw_through(&mut gpu, &mut nvic, 0);
    assert_eq!(row(&gpu, 0, 8), vec![3, 2, 1, 0, 3, 2, 1, 0]);
}

#[test]
fn gpu_registers_read_back() {
    let mut gpu = Gpu::new();
    gpu.set_scy(1);
    gpu.set_scx(2);
    gpu.set_compare_line(3);
    gpu.set_window_y(4);
    gpu.set_window_x(5);
    gpu.set_object_palette_0(6);
    gpu.set_object_palette_1(7);
    gpu.control_from_byte(8);
    assert_eq!(gpu.get_scy(), 1);
    assert_eq!(gpu.get_scx(), 2);
    assert_eq!(gpu.get_compare_line(), 3);
    assert_eq!(gpu.get_window_y(), 4);
    assert_eq!(gpu.get_window_x(), 5);
    assert_eq!(gpu.get_object_palette_0(), 6);
    assert_eq!(gpu.get_object_palette_1(), 7);
    assert_eq!(gpu.control_to_byte(), 8);
}
