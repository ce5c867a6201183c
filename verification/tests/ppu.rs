use naanes::mapper::{Mapper, Mirroring, NRomMapper};
use naanes::ppu::{OAMDMAStatus, PPU};

type Frame = [[[u8; 3]; 256]; 240];

const DOTS_PER_FRAME: usize = 341 * 262;

const BACKDROP: [u8; 3] = [76, 154, 236];
const RED: [u8; 3] = [152, 34, 32];
const GREEN: [u8; 3] = [76, 208, 32];
const WHITE: [u8; 3] = [236, 238, 236];
const BLUE: [u8; 3] = [0, 30, 116];
const NAVY: [u8; 3] = [8, 16, 144];

/// Tile 1 is pattern 1 all over, tile 2 pattern 3 all over, tile 3 pattern 2
/// in its top-left pixel only, tile 4 pattern 1 in the left half of its top
/// row and pattern 2 in the last pixel of its bottom row.
fn patterns() -> Vec<u8> {
    let mut chr = vec![0u8; 0x2000];
    for row in 0..8 {
        chr[0x10 + row] = 0xFF;
    }
    for row in 0..16 {
        chr[0x20 + row] = 0xFF;
    }
    chr[0x30 + 8] = 0x80;
    chr[0x40] = 0xF0;
    chr[0x40 + 8 + 7] = 0x01;
    chr
}

fn unit(mirroring: Mirroring) -> PPU {
    let mut ppu = PPU::new(patterns(), Mapper::NRom(NRomMapper::new(1, mirroring)));
    ppu.oam.initialize();
    ppu
}

fn poke(ppu: &mut PPU, address: u16, byte: u8) {
    ppu.read_byte(0x2002);
    ppu.write_byte(0x2006, (address >> 8) as u8);
    ppu.write_byte(0x2006, address as u8);
    ppu.write_byte(0x2007, byte);
}

fn peek(ppu: &mut PPU, address: u16) -> u8 {
    ppu.read_byte(0x2002);
    ppu.write_byte(0x2006, (address >> 8) as u8);
    ppu.write_byte(0x2006, address as u8);
    ppu.read_byte(0x2007)
}

fn put_sprite(ppu: &mut PPU, index: u8, y: u8, tile: u8, attribute: u8, x: u8) {
    ppu.write_byte(0x2003, index * 4);
    ppu.write_byte(0x2004, y);
    ppu.write_byte(0x2004, tile);
    ppu.write_byte(0x2004, attribute);
    ppu.write_byte(0x2004, x);
}

fn run(ppu: &mut PPU, frame: &mut Frame, dots: usize) -> usize {
    let mut raised = 0;
    for _ in 0..dots {
        let mut nmi = false;
        ppu.step(frame, &mut nmi);
        if nmi {
            raised += 1;
        }
    }
    raised
}

fn blank() -> Box<Frame> {
    Box::new([[[0u8; 3]; 256]; 240])
}

/// Backdrop colour, a red tile at column 2 of row 1 of the first nametable,
/// and the sprite colours used below.
fn scene(mirroring: Mirroring) -> PPU {
    let mut ppu = unit(mirroring);
    poke(&mut ppu, 0x3F00, 0x21);
    poke(&mut ppu, 0x3F03, 0x30);
    poke(&mut ppu, 0x3F09, 0x16);
    poke(&mut ppu, 0x3F11, 0x01);
    poke(&mut ppu, 0x3F12, 0x02);
    poke(&mut ppu, 0x3F17, 0x2A);
    poke(&mut ppu, 0x3F1B, 0x30);
    poke(&mut ppu, 0x2022, 1);
    poke(&mut ppu, 0x23C0, 0b0000_1000);
    ppu.read_byte(0x2002);
    ppu.write_byte(0x2006, 0);
    ppu.write_byte(0x2006, 0);
    ppu
}

#[test]
fn power_on_state_is_cleared() {
    let mut ppu = PPU::new(patterns(), Mapper::NRom(NRomMapper::new(1, Mirroring::Horizontal)));
    assert_eq!((ppu.cycles, ppu.scan_line), (0, 0));
    assert_eq!(ppu.read_byte(0x2002), 0);
    assert_eq!(ppu.oam_dma_status(), OAMDMAStatus::NotRunning);
    assert_eq!(ppu.oam.inner.len(), 64);
    assert_eq!(ppu.secondary_oam.inner.len(), 8);
    assert!(ppu.vram.iter().all(|&b| b == 0));
    assert!(ppu.palette_ram.iter().all(|&b| b == 0));
}

#[test]
fn horizontal_mirroring_shares_the_first_two_tables() {
    let mut ppu = unit(Mirroring::Horizontal);
    poke(&mut ppu, 0x2000, 0xAA);
    assert_eq!(peek(&mut ppu, 0x2400), 0xAA);
    assert_eq!(peek(&mut ppu, 0x2000), 0xAA);
    assert_eq!(peek(&mut ppu, 0x2800), 0x00);
    assert_eq!(peek(&mut ppu, 0x2C00), 0x00);
    poke(&mut ppu, 0x2C05, 0x5C);
    assert_eq!(peek(&mut ppu, 0x2805), 0x5C);
    assert_eq!(peek(&mut ppu, 0x2005), 0x00);
}

#[test]
fn vertical_mirroring_shares_the_first_and_third_tables() {
    let mut ppu = unit(Mirroring::Vertical);
    poke(&mut ppu, 0x2000, 0xBB);
    assert_eq!(peek(&mut ppu, 0x2800), 0xBB);
    assert_eq!(peek(&mut ppu, 0x2000), 0xBB);
    assert_eq!(peek(&mut ppu, 0x2400), 0x00);
    assert_eq!(peek(&mut ppu, 0x2C00), 0x00);
    poke(&mut ppu, 0x2C05, 0x5C);
    assert_eq!(peek(&mut ppu, 0x2405), 0x5C);
    assert_eq!(peek(&mut ppu, 0x2805), 0x00);
}

#[test]
fn nametables_repeat_from_3000() {
    let mut ppu = unit(Mirroring::Vertical);
    poke(&mut ppu, 0x2123, 0x77);
    assert_eq!(peek(&mut ppu, 0x3123), 0x77);
    poke(&mut ppu, 0x3EFF, 0x66);
    assert_eq!(peek(&mut ppu, 0x2EFF), 0x66);
    assert_eq!(ppu.get_mirrored_name_space_address(0x2EFF), 0x26FF);
}

#[test]
fn palette_entry_zero_is_seen_at_every_sixteenth_address() {
    let mut ppu = unit(Mirroring::Horizontal);
    poke(&mut ppu, 0x3F00, 0x2A);
    let mut address = 0x3F10;
    while address <= 0x3FF0 {
        assert_eq!(peek(&mut ppu, address), 0x2A);
        address += 0x10;
    }
    assert_eq!(address, 0x4000);
    assert_eq!(peek(&mut ppu, 0x3FE0), 0x2A);
}

#[test]
fn palette_repeats_every_thirty_two_bytes() {
    let mut ppu = unit(Mirroring::Horizontal);
    poke(&mut ppu, 0x3F01, 0x11);
    poke(&mut ppu, 0x3F1F, 0x1F);
    assert_eq!(peek(&mut ppu, 0x3F21), 0x11);
    assert_eq!(peek(&mut ppu, 0x3FE1), 0x11);
    assert_eq!(peek(&mut ppu, 0x3F3F), 0x1F);
    assert_eq!(peek(&mut ppu, 0x3FFF), 0x1F);
    assert_eq!(peek(&mut ppu, 0x3F11), 0x00);
}

#[test]
fn sprite_backdrop_entries_are_the_background_ones() {
    let mut ppu = unit(Mirroring::Horizontal);
    poke(&mut ppu, 0x3F14, 0x04);
    poke(&mut ppu, 0x3F08, 0x08);
    poke(&mut ppu, 0x3F1C, 0x0C);
    assert_eq!(peek(&mut ppu, 0x3F04), 0x04);
    assert_eq!(peek(&mut ppu, 0x3F18), 0x08);
    assert_eq!(peek(&mut ppu, 0x3F0C), 0x0C);
    assert_eq!(ppu.palette_ram[0x04], 0x04);
    assert_eq!(ppu.palette_ram[0x14], 0x00);
}

#[test]
fn pattern_memory_reads_through_the_data_port_and_takes_no_writes() {
    let mut ppu = unit(Mirroring::Horizontal);
    assert_eq!(peek(&mut ppu, 0x0010), 0xFF);
    assert_eq!(peek(&mut ppu, 0x0038), 0x80);
    poke(&mut ppu, 0x0010, 0x00);
    assert_eq!(peek(&mut ppu, 0x0010), 0xFF);
    assert_eq!(ppu.read_byte(0x0038), 0x80);
    assert_eq!(ppu.read_pattern_byte(0x0040), 0xF0);
}

#[test]
fn missing_pattern_memory_reads_as_zero() {
    let mut ppu = PPU::new(Vec::new(), Mapper::NRom(NRomMapper::new(1, Mirroring::Horizontal)));
    assert_eq!(peek(&mut ppu, 0x0010), 0);
    assert_eq!(ppu.read_byte(0x1FFF), 0);
    assert_eq!(ppu.get_specified_in_tile(1, 0, 0), 0);
}

#[test]
fn data_port_moves_the_pointer_by_one_or_by_thirty_two() {
    let mut ppu = unit(Mirroring::Horizontal);
    ppu.write_byte(0x2006, 0x20);
    ppu.write_byte(0x2006, 0x00);
    ppu.write_byte(0x2007, 1);
    ppu.write_byte(0x2007, 2);
    assert_eq!(ppu.address.get(), 0x2002);
    ppu.write_byte(0x2000, 0b0000_0100);
    ppu.write_byte(0x2007, 3);
    assert_eq!(ppu.address.get(), 0x2022);
    ppu.read_byte(0x2007);
    assert_eq!(ppu.address.get(), 0x2042);
    assert_eq!(peek(&mut ppu, 0x2000), 1);
    assert_eq!(peek(&mut ppu, 0x2001), 2);
    assert_eq!(peek(&mut ppu, 0x2002), 3);
}

#[test]
fn pointer_above_3fff_wraps_into_the_address_space() {
    let mut ppu = unit(Mirroring::Horizontal);
    poke(&mut ppu, 0x6345, 0x99);
    assert_eq!(peek(&mut ppu, 0x2345), 0x99);
    assert_eq!(peek(&mut ppu, 0xE345), 0x99);
}

#[test]
fn status_read_returns_vblank_once() {
    let mut ppu = unit(Mirroring::Horizontal);
    let mut frame = blank();
    ppu.scan_line = 241;
    ppu.cycles = 1;
    run(&mut ppu, &mut frame, 1);
    assert_eq!(ppu.read_byte(0x2002) & 0x80, 0x80);
    assert_eq!(ppu.read_byte(0x2002) & 0x80, 0x00);
}

#[test]
fn vblank_begins_at_dot_one_of_scanline_241() {
    let mut ppu = unit(Mirroring::Horizontal);
    let mut frame = blank();
    run(&mut ppu, &mut frame, 241 * 341 + 1);
    assert_eq!((ppu.scan_line, ppu.cycles), (241, 1));
    assert_eq!(ppu.read_byte_without_effect(0x2002), 0x00);
    run(&mut ppu, &mut frame, 1);
    assert_eq!(ppu.read_byte_without_effect(0x2002), 0x80);
    assert_eq!(ppu.read_byte_without_effect(0x2002), 0x80);
    assert_eq!(ppu.read_byte(0x2002), 0x80);
    assert_eq!(ppu.read_byte(0x2002), 0x00);
}

#[test]
fn vblank_ends_at_dot_one_of_scanline_261() {
    let mut ppu = unit(Mirroring::Horizontal);
    let mut frame = blank();
    run(&mut ppu, &mut frame, 261 * 341 + 1);
    assert_eq!(ppu.read_byte_without_effect(0x2002), 0x80);
    run(&mut ppu, &mut frame, 1);
    assert_eq!(ppu.read_byte_without_effect(0x2002), 0x00);
}

#[test]
fn a_frame_is_262_scanlines_of_341_dots() {
    let mut ppu = unit(Mirroring::Horizontal);
    let mut frame = blank();
    run(&mut ppu, &mut frame, 340);
    assert_eq!((ppu.scan_line, ppu.cycles), (0, 340));
    run(&mut ppu, &mut frame, 1);
    assert_eq!((ppu.scan_line, ppu.cycles), (1, 0));
    run(&mut ppu, &mut frame, DOTS_PER_FRAME - 342);
    assert_eq!((ppu.scan_line, ppu.cycles), (261, 340));
    run(&mut ppu, &mut frame, 1);
    assert_eq!((ppu.scan_line, ppu.cycles), (0, 0));
}

#[test]
fn interrupt_is_raised_once_a_frame_when_enabled() {
    let mut ppu = unit(Mirroring::Horizontal);
    let mut frame = blank();
    ppu.write_byte(0x2000, 0x80);
    assert_eq!(run(&mut ppu, &mut frame, 241 * 341 + 1), 0);
    assert_eq!(run(&mut ppu, &mut frame, 1), 1);
    assert_eq!(run(&mut ppu, &mut frame, DOTS_PER_FRAME - 1), 0);
    assert_eq!(run(&mut ppu, &mut frame, 1), 1);
}

#[test]
fn interrupt_is_not_raised_when_disabled() {
    let mut ppu = unit(Mirroring::Horizontal);
    let mut frame = blank();
    assert_eq!(run(&mut ppu, &mut frame, 2 * DOTS_PER_FRAME), 0);
}

#[test]
fn step_leaves_a_raised_interrupt_flag_alone() {
    let mut ppu = unit(Mirroring::Horizontal);
    let mut frame = blank();
    let mut nmi = true;
    ppu.step(&mut frame, &mut nmi);
    assert!(nmi);
}

#[test]
fn status_read_resets_the_write_latch() {
    let mut ppu = unit(Mirroring::Horizontal);
    ppu.write_byte(0x2006, 0x12);
    ppu.read_byte(0x2002);
    ppu.write_byte(0x2006, 0x3F);
    ppu.write_byte(0x2006, 0x10);
    assert_eq!(ppu.address.get(), 0x3F10);

    ppu.write_byte(0x2005, 0x11);
    ppu.read_byte(0x2002);
    ppu.write_byte(0x2005, 0x22);
    ppu.write_byte(0x2005, 0x33);
    assert_eq!((ppu.scroll.x, ppu.scroll.y), (0x22, 0x33));
}

#[test]
fn scroll_and_address_share_the_write_latch() {
    let mut ppu = unit(Mirroring::Horizontal);
    ppu.write_byte(0x2005, 0x11);
    ppu.write_byte(0x2006, 0x44);
    assert_eq!(ppu.scroll.x, 0x11);
    assert_eq!(ppu.address.get(), 0x0044);
    ppu.write_byte(0x2006, 0x21);
    ppu.write_byte(0x2005, 0x55);
    assert_eq!(ppu.address.get(), 0x2100);
    assert_eq!((ppu.scroll.x, ppu.scroll.y), (0x11, 0x55));
}

#[test]
fn read_without_effect_changes_nothing() {
    let mut ppu = unit(Mirroring::Horizontal);
    poke(&mut ppu, 0x2000, 0x42);
    ppu.status.set_vblank();
    ppu.write_byte(0x2006, 0x20);
    assert_eq!(ppu.read_byte_without_effect(0x2002), 0x80);
    assert!(ppu.address.is_stored_first);
    ppu.write_byte(0x2006, 0x00);
    assert_eq!(ppu.read_byte_without_effect(0x2007), 0x42);
    assert_eq!(ppu.read_byte_without_effect(0x2007), 0x42);
    assert_eq!(ppu.address.get(), 0x2000);
    assert_eq!(ppu.read_byte_without_effect(0x2000), 0);
    assert_eq!(ppu.read_byte_without_effect(0x0010), 0xFF);
}

#[test]
fn write_only_registers_read_as_zero() {
    let mut ppu = unit(Mirroring::Horizontal);
    ppu.write_byte(0x2000, 0xFF);
    ppu.write_byte(0x2001, 0xFF);
    ppu.write_byte(0x2003, 0xFF);
    for address in [0x2000, 0x2001, 0x2003, 0x2005, 0x2006, 0x4014, 0x5000] {
        assert_eq!(ppu.read_byte(address), 0);
    }
}

#[test]
fn sprite_memory_port_writes_and_moves_on() {
    let mut ppu = unit(Mirroring::Horizontal);
    put_sprite(&mut ppu, 4, 0x10, 0x20, 0xFF, 0x40);
    assert_eq!(ppu.oam_address.addr, 20);
    ppu.write_byte(0x2003, 16);
    assert_eq!(ppu.read_byte(0x2004), 0x10);
    assert_eq!(ppu.read_byte(0x2004), 0x10);
    ppu.write_byte(0x2003, 17);
    assert_eq!(ppu.read_byte(0x2004), 0x20);
    ppu.write_byte(0x2003, 18);
    assert_eq!(ppu.read_byte(0x2004), 0xE3);
    assert_eq!(ppu.read_byte_without_effect(0x2004), 0xE3);
    ppu.write_byte(0x2003, 19);
    assert_eq!(ppu.read_byte(0x2004), 0x40);
    assert_eq!(ppu.oam.read_byte(18), 0xFF);
}

#[test]
fn sprite_memory_pointer_wraps() {
    let mut ppu = unit(Mirroring::Horizontal);
    ppu.write_byte(0x2003, 0xFF);
    ppu.write_byte(0x2004, 0x77);
    assert_eq!(ppu.oam_address.addr, 0);
    ppu.write_byte(0x2004, 0x88);
    assert_eq!(ppu.oam.read_byte(255), 0x77);
    assert_eq!(ppu.oam.read_byte(0), 0x88);
}

#[test]
fn transfer_fills_sprite_memory_from_the_pointer_on() {
    let mut ppu = unit(Mirroring::Horizontal);
    ppu.write_byte(0x2003, 0x10);
    ppu.write_byte(0x4014, 0x07);
    assert_eq!(ppu.oam_dma_status(), OAMDMAStatus::Waiting);
    ppu.start_oam_dma();
    assert_eq!(ppu.oam_dma_status(), OAMDMAStatus::Running(0x0700));
    for i in 0..256usize {
        assert_eq!(ppu.oam_dma_status(), OAMDMAStatus::Running(0x0700 + i));
        ppu.oam_dma_write(i as u8);
    }
    assert_eq!(ppu.oam_dma_status(), OAMDMAStatus::NotRunning);
    for i in 0..256usize {
        assert_eq!(ppu.oam.read_byte((0x10 + i) % 256), i as u8);
    }
    assert_eq!(ppu.oam_address.addr, 0x10);
}

#[test]
fn set_rom_replaces_pattern_memory_and_board() {
    let mut ppu = unit(Mirroring::Horizontal);
    poke(&mut ppu, 0x2000, 0xAA);
    let mut chr = vec![0u8; 0x2000];
    chr[5] = 0x5A;
    ppu.set_rom(chr, Mapper::NRom(NRomMapper::new(2, Mirroring::Vertical)));
    assert_eq!(ppu.read_byte(5), 0x5A);
    assert_eq!(ppu.read_byte(0x10), 0);
    assert_eq!(peek(&mut ppu, 0x2800), 0xAA);
    assert_eq!(peek(&mut ppu, 0x2400), 0x00);
}

#[test]
fn tile_patterns_combine_the_two_planes() {
    let ppu = unit(Mirroring::Horizontal);
    assert_eq!(ppu.get_specified_in_tile(1, 3, 5), 1);
    assert_eq!(ppu.get_specified_in_tile(2, 0, 7), 3);
    assert_eq!(ppu.get_specified_in_tile(3, 0, 0), 2);
    assert_eq!(ppu.get_specified_in_tile(3, 1, 0), 0);
    assert_eq!(ppu.get_specified_in_tile(4, 3, 0), 1);
    assert_eq!(ppu.get_specified_in_tile(4, 4, 0), 0);
    assert_eq!(ppu.get_specified_in_tile(4, 7, 7), 2);
    let tile = ppu.get_tile(4);
    assert_eq!(tile.len(), 8);
    assert_eq!(tile[0], vec![1, 1, 1, 1, 0, 0, 0, 0]);
    assert_eq!(tile[1], vec![0; 8]);
    assert_eq!(tile[7], vec![0, 0, 0, 0, 0, 0, 0, 2]);
}

#[test]
fn background_pattern_table_is_selected_by_the_control_register() {
    let mut chr = patterns();
    chr[0x1000 + 0x10] = 0x01;
    let mut ppu = PPU::new(chr, Mapper::NRom(NRomMapper::new(1, Mirroring::Horizontal)));
    assert_eq!(ppu.get_specified_in_tile(1, 7, 0), 1);
    assert_eq!(ppu.get_specified_in_tile(1, 0, 0), 1);
    ppu.write_byte(0x2000, 0x10);
    assert_eq!(ppu.get_specified_in_tile(1, 7, 0), 1);
    assert_eq!(ppu.get_specified_in_tile(1, 0, 0), 0);
}

#[test]
fn background_tile_is_painted_in_its_palette() {
    let mut ppu = scene(Mirroring::Horizontal);
    let mut frame = blank();
    run(&mut ppu, &mut frame, DOTS_PER_FRAME);
    for y in 8..16 {
        for x in 16..24 {
            assert_eq!(frame[y][x], RED);
        }
    }
    assert_eq!(frame[8][15], BACKDROP);
    assert_eq!(frame[8][24], BACKDROP);
    assert_eq!(frame[7][16], BACKDROP);
    assert_eq!(frame[16][16], BACKDROP);
    assert_eq!(frame[0][0], BACKDROP);
    assert_eq!(frame[239][255], BACKDROP);
    assert_eq!(ppu.get_background_pixel(16, 8), 9);
    assert_eq!(ppu.get_background_pixel(15, 8), 0);
    assert_eq!(ppu.get_palette_number(0x2000, 16, 8), 2);
    assert_eq!(ppu.get_palette_number(0x2000, 15, 8), 0);
}

#[test]
fn each_quadrant_of_an_attribute_byte_has_its_palette() {
    let mut ppu = unit(Mirroring::Horizontal);
    poke(&mut ppu, 0x23C9, 0b1110_0100);
    assert_eq!(ppu.get_palette_number(0x2000, 32, 32), 0);
    assert_eq!(ppu.get_palette_number(0x2000, 48, 32), 1);
    assert_eq!(ppu.get_palette_number(0x2000, 32, 48), 2);
    assert_eq!(ppu.get_palette_number(0x2000, 63, 63), 3);
    assert_eq!(ppu.get_palette_number(0x2000, 64, 32), 0);
}

#[test]
fn one_dot_paints_one_pixel() {
    let mut ppu = scene(Mirroring::Horizontal);
    let mut frame = blank();
    run(&mut ppu, &mut frame, 1);
    assert_eq!(frame[0][0], [0, 0, 0]);
    run(&mut ppu, &mut frame, 1);
    assert_eq!(frame[0][0], BACKDROP);
    assert_eq!(frame[0][1], [0, 0, 0]);
    run(&mut ppu, &mut frame, 255);
    assert_eq!(frame[0][255], BACKDROP);
    assert_eq!(frame[1][0], [0, 0, 0]);
    run(&mut ppu, &mut frame, 84);
    assert_eq!(frame[1][0], [0, 0, 0]);
    run(&mut ppu, &mut frame, 2);
    assert_eq!(frame[1][0], BACKDROP);
}

#[test]
fn nothing_is_painted_outside_the_visible_scanlines() {
    let mut ppu = scene(Mirroring::Horizontal);
    let mut frame = blank();
    ppu.scan_line = 240;
    run(&mut ppu, &mut frame, 22 * 341);
    assert_eq!((ppu.scan_line, ppu.cycles), (0, 0));
    assert!(frame.iter().all(|row| row.iter().all(|pixel| *pixel == [0, 0, 0])));
}

#[test]
fn horizontal_scroll_shifts_the_background() {
    let mut ppu = scene(Mirroring::Horizontal);
    let mut frame = blank();
    ppu.read_byte(0x2002);
    ppu.write_byte(0x2005, 8);
    ppu.write_byte(0x2005, 0);
    run(&mut ppu, &mut frame, DOTS_PER_FRAME);
    assert_eq!(frame[8][7], BACKDROP);
    assert_eq!(frame[8][8], RED);
    assert_eq!(frame[15][15], RED);
    assert_eq!(frame[8][16], BACKDROP);
}

#[test]
fn vertical_scroll_shifts_the_background() {
    let mut ppu = scene(Mirroring::Horizontal);
    let mut frame = blank();
    ppu.read_byte(0x2002);
    ppu.write_byte(0x2005, 0);
    ppu.write_byte(0x2005, 3);
    run(&mut ppu, &mut frame, DOTS_PER_FRAME);
    assert_eq!(frame[4][16], BACKDROP);
    assert_eq!(frame[5][16], RED);
    assert_eq!(frame[12][23], RED);
    assert_eq!(frame[13][16], BACKDROP);
}

#[test]
fn control_register_selects_the_nametable_shown() {
    let mut ppu = scene(Mirroring::Vertical);
    poke(&mut ppu, 0x2422, 2);
    ppu.read_byte(0x2002);
    ppu.write_byte(0x2000, 0x01);
    let mut frame = blank();
    run(&mut ppu, &mut frame, DOTS_PER_FRAME);
    assert_eq!(frame[8][16], WHITE);
    assert_eq!(frame[15][23], WHITE);
    assert_eq!(frame[8][24], BACKDROP);
    assert_eq!(ppu.get_background_pixel(16, 8), 3);
}

#[test]
fn scrolling_past_the_right_edge_shows_the_next_nametable() {
    let mut ppu = scene(Mirroring::Vertical);
    poke(&mut ppu, 0x2422, 2);
    ppu.read_byte(0x2002);
    ppu.write_byte(0x2005, 255);
    ppu.write_byte(0x2005, 0);
    let mut frame = blank();
    run(&mut ppu, &mut frame, DOTS_PER_FRAME);
    assert_eq!(frame[8][16], BACKDROP);
    assert_eq!(frame[8][17], WHITE);
    assert_eq!(frame[8][24], WHITE);
    assert_eq!(frame[8][25], BACKDROP);
}

#[test]
fn the_nametable_plane_wraps_after_512_columns() {
    let mut ppu = scene(Mirroring::Vertical);
    ppu.read_byte(0x2002);
    ppu.write_byte(0x2000, 0x01);
    ppu.write_byte(0x2005, 255);
    ppu.write_byte(0x2005, 0);
    let mut frame = blank();
    run(&mut ppu, &mut frame, DOTS_PER_FRAME);
    assert_eq!(frame[8][16], BACKDROP);
    assert_eq!(frame[8][17], RED);
    assert_eq!(frame[8][24], RED);
    assert_eq!(frame[8][25], BACKDROP);
    assert_eq!(ppu.get_plane_x(1), 0);
    assert_eq!(ppu.get_plane_x(0), 511);
}

#[test]
fn the_nametable_plane_wraps_after_480_rows() {
    let mut ppu = scene(Mirroring::Horizontal);
    ppu.read_byte(0x2002);
    ppu.write_byte(0x2000, 0x02);
    ppu.write_byte(0x2005, 0);
    ppu.write_byte(0x2005, 239);
    assert_eq!(ppu.get_plane_y(0), 479);
    assert_eq!(ppu.get_plane_y(1), 0);
    assert_eq!(ppu.get_plane_y(9), 8);
    let mut frame = blank();
    run(&mut ppu, &mut frame, DOTS_PER_FRAME);
    assert_eq!(frame[8][16], BACKDROP);
    assert_eq!(frame[9][16], RED);
    assert_eq!(frame[16][16], RED);
    assert_eq!(frame[17][16], BACKDROP);
}

#[test]
fn sprite_is_painted_one_row_below_its_y() {
    let mut ppu = scene(Mirroring::Horizontal);
    put_sprite(&mut ppu, 3, 20, 2, 0x01, 40);
    let mut frame = blank();
    run(&mut ppu, &mut frame, DOTS_PER_FRAME);
    for y in 21..29 {
        for x in 40..48 {
            assert_eq!(frame[y][x], GREEN);
        }
    }
    assert_eq!(frame[20][40], BACKDROP);
    assert_eq!(frame[29][40], BACKDROP);
    assert_eq!(frame[21][39], BACKDROP);
    assert_eq!(frame[21][48], BACKDROP);
}

#[test]
fn sprite_rows_and_columns_can_be_flipped() {
    for (attribute, top, bottom) in [
        (0x00u8, [100usize, 101, 102, 103], 107usize),
        (0x40, [104, 105, 106, 107], 100),
    ] {
        let mut ppu = scene(Mirroring::Horizontal);
        put_sprite(&mut ppu, 1, 50, 4, attribute, 100);
        let mut frame = blank();
        run(&mut ppu, &mut frame, DOTS_PER_FRAME);
        for x in 100..108 {
            let expected = if top.contains(&x) { BLUE } else { BACKDROP };
            assert_eq!(frame[51][x], expected);
            let expected = if x == bottom { NAVY } else { BACKDROP };
            assert_eq!(frame[58][x], expected);
        }
    }
    for (attribute, top, bottom) in [
        (0x80u8, 107usize, [100usize, 101, 102, 103]),
        (0xC0, 100, [104, 105, 106, 107]),
    ] {
        let mut ppu = scene(Mirroring::Horizontal);
        put_sprite(&mut ppu, 1, 50, 4, attribute, 100);
        let mut frame = blank();
        run(&mut ppu, &mut frame, DOTS_PER_FRAME);
        for x in 100..108 {
            let expected = if x == top { NAVY } else { BACKDROP };
            assert_eq!(frame[51][x], expected);
            let expected = if bottom.contains(&x) { BLUE } else { BACKDROP };
            assert_eq!(frame[58][x], expected);
        }
    }
}

#[test]
fn sprite_row_patterns_follow_the_flips() {
    let mut ppu = scene(Mirroring::Horizontal);
    put_sprite(&mut ppu, 0, 50, 4, 0x00, 100);
    let plain = *ppu.oam.get(0);
    assert_eq!(ppu.get_specified_in_sprite_tile(&plain, 0), [1, 1, 1, 1, 0, 0, 0, 0]);
    assert_eq!(ppu.get_specified_in_sprite_tile(&plain, 7), [0, 0, 0, 0, 0, 0, 0, 2]);
    put_sprite(&mut ppu, 0, 50, 4, 0xC0, 100);
    let flipped = *ppu.oam.get(0);
    assert_eq!(ppu.get_specified_in_sprite_tile(&flipped, 0), [2, 0, 0, 0, 0, 0, 0, 0]);
    assert_eq!(ppu.get_specified_in_sprite_tile(&flipped, 7), [0, 0, 0, 0, 1, 1, 1, 1]);
}

#[test]
fn sprite_pattern_table_is_selected_by_the_control_register() {
    let mut chr = patterns();
    chr[0x1000 + 0x20] = 0x81;
    let mut ppu = PPU::new(chr, Mapper::NRom(NRomMapper::new(1, Mirroring::Horizontal)));
    put_sprite(&mut ppu, 0, 0, 2, 0, 0);
    let sprite = *ppu.oam.get(0);
    assert_eq!(ppu.get_specified_in_sprite_tile(&sprite, 0), [3; 8]);
    ppu.write_byte(0x2000, 0x08);
    assert_eq!(ppu.get_specified_in_sprite_tile(&sprite, 0), [1, 0, 0, 0, 0, 0, 0, 1]);
}

#[test]
fn tall_sprite_takes_two_tiles() {
    let mut ppu = scene(Mirroring::Horizontal);
    poke(&mut ppu, 0x3F16, 0x25);
    ppu.write_byte(0x2000, 0x20);
    put_sprite(&mut ppu, 2, 60, 2, 0x01, 30);
    let mut frame = blank();
    run(&mut ppu, &mut frame, DOTS_PER_FRAME);
    for y in 61..69 {
        for x in 30..38 {
            assert_eq!(frame[y][x], GREEN);
        }
    }
    assert_eq!(frame[69][30], [236, 88, 180]);
    assert_eq!(frame[69][31], BACKDROP);
    assert_eq!(frame[70][30], BACKDROP);
    assert_eq!(frame[77][30], BACKDROP);
    assert_eq!(frame[60][30], BACKDROP);
}

#[test]
fn tall_sprite_flips_over_both_tiles() {
    let mut ppu = scene(Mirroring::Horizontal);
    ppu.write_byte(0x2000, 0x20);
    put_sprite(&mut ppu, 0, 60, 2, 0x80, 30);
    let sprite = *ppu.oam.get(0);
    assert_eq!(ppu.get_specified_in_sprite_tile(&sprite, 0), [0; 8]);
    assert_eq!(ppu.get_specified_in_sprite_tile(&sprite, 7), [2, 0, 0, 0, 0, 0, 0, 0]);
    assert_eq!(ppu.get_specified_in_sprite_tile(&sprite, 8), [3; 8]);
    assert_eq!(ppu.get_specified_in_sprite_tile(&sprite, 15), [3; 8]);
    put_sprite(&mut ppu, 0, 60, 3, 0x00, 30);
    let odd = *ppu.oam.get(0);
    assert_eq!(ppu.get_specified_in_sprite_tile(&odd, 0), [0; 8]);
}

#[test]
fn sprite_behind_the_background_shows_only_where_it_is_transparent() {
    let mut ppu = scene(Mirroring::Horizontal);
    put_sprite(&mut ppu, 5, 7, 2, 0x21, 20);
    let mut frame = blank();
    run(&mut ppu, &mut frame, DOTS_PER_FRAME);
    assert_eq!(frame[8][20], RED);
    assert_eq!(frame[8][23], RED);
    assert_eq!(frame[8][24], GREEN);
    assert_eq!(frame[8][27], GREEN);
    assert_eq!(frame[15][23], RED);
    assert_eq!(frame[15][24], GREEN);
}

#[test]
fn sprite_in_front_covers_the_background() {
    let mut ppu = scene(Mirroring::Horizontal);
    put_sprite(&mut ppu, 5, 7, 2, 0x01, 20);
    let mut frame = blank();
    run(&mut ppu, &mut frame, DOTS_PER_FRAME);
    assert_eq!(frame[8][19], RED);
    assert_eq!(frame[8][20], GREEN);
    assert_eq!(frame[8][27], GREEN);
    assert_eq!(frame[8][28], BACKDROP);
}

#[test]
fn of_two_overlapping_sprites_the_earlier_one_shows() {
    let mut ppu = scene(Mirroring::Horizontal);
    put_sprite(&mut ppu, 1, 100, 2, 0x01, 60);
    put_sprite(&mut ppu, 2, 100, 2, 0x02, 64);
    let mut frame = blank();
    run(&mut ppu, &mut frame, DOTS_PER_FRAME);
    assert_eq!(frame[101][60], GREEN);
    assert_eq!(frame[101][63], GREEN);
    assert_eq!(frame[101][64], GREEN);
    assert_eq!(frame[101][67], GREEN);
    assert_eq!(frame[101][68], WHITE);
    assert_eq!(frame[101][71], WHITE);
    assert_eq!(frame[101][72], BACKDROP);
}

#[test]
fn a_later_sprite_shows_where_the_earlier_one_is_transparent() {
    let mut ppu = scene(Mirroring::Horizontal);
    put_sprite(&mut ppu, 1, 100, 4, 0x00, 60);
    put_sprite(&mut ppu, 2, 100, 2, 0x01, 60);
    let mut frame = blank();
    run(&mut ppu, &mut frame, DOTS_PER_FRAME);
    assert_eq!(frame[101][60], BLUE);
    assert_eq!(frame[101][63], BLUE);
    assert_eq!(frame[101][64], GREEN);
    assert_eq!(frame[102][60], GREEN);
    assert_eq!(frame[108][66], GREEN);
    assert_eq!(frame[108][67], NAVY);
}

#[test]
fn the_earlier_sprite_decides_whether_the_pixel_goes_behind() {
    let mut ppu = scene(Mirroring::Horizontal);
    put_sprite(&mut ppu, 1, 7, 2, 0x21, 16);
    put_sprite(&mut ppu, 2, 7, 2, 0x02, 16);
    let mut frame = blank();
    run(&mut ppu, &mut frame, DOTS_PER_FRAME);
    assert_eq!(frame[8][16], RED);
    assert_eq!(frame[8][23], RED);
}

#[test]
fn sprite_at_the_right_edge_is_cut_off() {
    let mut ppu = scene(Mirroring::Horizontal);
    put_sprite(&mut ppu, 1, 30, 2, 0x01, 252);
    let mut frame = blank();
    run(&mut ppu, &mut frame, DOTS_PER_FRAME);
    assert_eq!(frame[31][251], BACKDROP);
    assert_eq!(frame[31][252], GREEN);
    assert_eq!(frame[31][255], GREEN);
    assert_eq!(frame[31][0], BACKDROP);
    assert_eq!(frame[32][0], BACKDROP);
}

#[test]
fn eight_sprites_on_a_line_are_all_painted() {
    let mut ppu = scene(Mirroring::Horizontal);
    for i in 0..8u8 {
        put_sprite(&mut ppu, 10 + i, 120, 2, 0x01, 16 * i);
    }
    let mut frame = blank();
    run(&mut ppu, &mut frame, DOTS_PER_FRAME);
    for i in 0..8usize {
        assert_eq!(frame[121][16 * i], GREEN);
        assert_eq!(frame[121][16 * i + 8], BACKDROP);
    }
    assert_eq!(ppu.read_byte(0x2002) & 0x20, 0);
}

#[test]
fn ninth_sprite_on_a_line_is_dropped_and_flags_overflow() {
    let mut ppu = scene(Mirroring::Horizontal);
    for i in 0..9u8 {
        put_sprite(&mut ppu, 10 + i, 120, 2, 0x01, 16 * i);
    }
    let mut frame = blank();
    run(&mut ppu, &mut frame, 120 * 341 + 64);
    assert_eq!(ppu.read_byte_without_effect(0x2002) & 0x20, 0x00);
    run(&mut ppu, &mut frame, 1);
    assert_eq!(ppu.read_byte_without_effect(0x2002) & 0x20, 0x20);
    for k in 0..8usize {
        assert_eq!(ppu.secondary_oam.get(k).x as usize, 16 * k);
        assert_eq!(ppu.secondary_oam.get(k).y, 120);
    }
    run(&mut ppu, &mut frame, 2 * 341);
    for i in 0..8usize {
        assert_eq!(frame[121][16 * i], GREEN);
    }
    assert_eq!(frame[121][128], BACKDROP);
    run(&mut ppu, &mut frame, (261 - 122) * 341 - 64);
    assert_eq!((ppu.scan_line, ppu.cycles), (261, 1));
    assert_eq!(ppu.read_byte_without_effect(0x2002) & 0x20, 0x20);
    run(&mut ppu, &mut frame, 1);
    assert_eq!(ppu.read_byte_without_effect(0x2002) & 0x20, 0x00);
}

#[test]
fn secondary_sprite_memory_is_cleared_at_dot_zero_of_a_visible_scanline() {
    let mut ppu = scene(Mirroring::Horizontal);
    put_sprite(&mut ppu, 0, 5, 2, 0x01, 9);
    let mut frame = blank();
    run(&mut ppu, &mut frame, 5 * 341 + 65);
    assert_eq!(ppu.secondary_oam.get(0).x, 9);
    assert_eq!(ppu.secondary_oam.get(1).x, 0xFF);
    run(&mut ppu, &mut frame, 341 - 65);
    assert_eq!(ppu.secondary_oam.get(0).x, 9);
    run(&mut ppu, &mut frame, 1);
    assert_eq!(ppu.secondary_oam.get(0).x, 0xFF);
    assert_eq!(ppu.secondary_oam.get(0).y, 0xFF);
}

fn zero_hit_scene(mask: u8, sprite_x: u8, sprite_tile: u8, tile_column: u16) -> PPU {
    let mut ppu = scene(Mirroring::Horizontal);
    poke(&mut ppu, 0x2020 + tile_column, 1);
    ppu.write_byte(0x2001, mask);
    put_sprite(&mut ppu, 0, 7, sprite_tile, 0x01, sprite_x);
    ppu
}

fn zero_hit_after_a_frame(ppu: &mut PPU) -> bool {
    let mut frame = blank();
    run(ppu, &mut frame, 240 * 341);
    ppu.read_byte_without_effect(0x2002) & 0x40 != 0
}

#[test]
fn sprite_zero_over_opaque_background_sets_the_hit() {
    let mut ppu = zero_hit_scene(0x1E, 16, 2, 2);
    let mut frame = blank();
    run(&mut ppu, &mut frame, 8 * 341 + 17);
    assert_eq!(ppu.read_byte_without_effect(0x2002) & 0x40, 0x00);
    run(&mut ppu, &mut frame, 1);
    assert_eq!(ppu.read_byte_without_effect(0x2002) & 0x40, 0x40);
}

#[test]
fn hit_stays_until_the_pre_render_scanline() {
    let mut ppu = zero_hit_scene(0x1E, 16, 2, 2);
    let mut frame = blank();
    run(&mut ppu, &mut frame, 261 * 341 + 1);
    assert_eq!(ppu.read_byte(0x2002) & 0x40, 0x40);
    assert_eq!(ppu.read_byte(0x2002) & 0x40, 0x40);
    run(&mut ppu, &mut frame, 1);
    assert_eq!(ppu.read_byte(0x2002) & 0x40, 0x00);
    run(&mut ppu, &mut frame, DOTS_PER_FRAME);
    assert_eq!(ppu.read_byte(0x2002) & 0x40, 0x00);
}

#[test]
fn no_hit_while_the_background_is_switched_off() {
    assert!(!zero_hit_after_a_frame(&mut zero_hit_scene(0x16, 16, 2, 2)));
}

#[test]
fn no_hit_while_sprites_are_switched_off() {
    assert!(!zero_hit_after_a_frame(&mut zero_hit_scene(0x0E, 16, 2, 2)));
}

#[test]
fn no_hit_where_sprite_zero_is_transparent() {
    assert!(!zero_hit_after_a_frame(&mut zero_hit_scene(0x1E, 16, 0, 2)));
}

#[test]
fn no_hit_from_another_sprite() {
    let mut ppu = zero_hit_scene(0x1E, 16, 0, 2);
    put_sprite(&mut ppu, 1, 7, 2, 0x01, 16);
    assert!(!zero_hit_after_a_frame(&mut ppu));
}

#[test]
fn no_hit_where_the_background_is_transparent() {
    assert!(!zero_hit_after_a_frame(&mut zero_hit_scene(0x1E, 40, 2, 2)));
}

#[test]
fn no_hit_in_the_last_column() {
    assert!(!zero_hit_after_a_frame(&mut zero_hit_scene(0x1E, 255, 2, 31)));
    assert!(zero_hit_after_a_frame(&mut zero_hit_scene(0x1E, 254, 2, 31)));
}

#[test]
fn no_hit_in_the_first_eight_columns_while_a_layer_is_clipped() {
    assert!(!zero_hit_after_a_frame(&mut zero_hit_scene(0x18, 0, 2, 0)));
    assert!(!zero_hit_after_a_frame(&mut zero_hit_scene(0x1A, 0, 2, 0)));
    assert!(!zero_hit_after_a_frame(&mut zero_hit_scene(0x1C, 0, 2, 0)));
    assert!(zero_hit_after_a_frame(&mut zero_hit_scene(0x1E, 0, 2, 0)));
}

#[test]
fn clipped_layers_still_hit_from_column_eight() {
    let mut ppu = zero_hit_scene(0x18, 1, 2, 0);
    poke(&mut ppu, 0x2021, 1);
    ppu.read_byte(0x2002);
    ppu.write_byte(0x2006, 0);
    ppu.write_byte(0x2006, 0);
    let mut frame = blank();
    run(&mut ppu, &mut frame, 8 * 341 + 9);
    assert_eq!(ppu.read_byte_without_effect(0x2002) & 0x40, 0x00);
    run(&mut ppu, &mut frame, 1);
    assert_eq!(ppu.read_byte_without_effect(0x2002) & 0x40, 0x40);
}
