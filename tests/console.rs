use rustella::atari::NtscAtari;
use rustella::tv::{ntsc_tv_config, NTSC_PIXELS_PER_SCANLINE, NTSC_SCANLINES};

#[test]
fn console_paces_three_video_ticks_per_cycle() {
    let mut atari = NtscAtari::new();
    // LDA #1 at 0xF000, reset vector pointing there
    atari.load_rom(0xF000, &[0xA9, 0x01]);
    atari.load_rom(0xFFFC, &[0x00, 0xF0]);
    assert_eq!(atari.cpu_state().pc(), (0x00, 0xF0));
    assert_eq!(atari.tick(), Ok(2));
    assert_eq!(atari.tia_clocks(), 6);
    assert_eq!(atari.cpu_state().a(), 0x01);
}

#[test]
fn stalled_console_still_lets_a_cycle_pass() {
    let mut atari = NtscAtari::new();
    atari.set_rdy(false);
    assert_eq!(atari.tick(), Ok(0));
    assert_eq!(atari.tia_clocks(), 3);
    assert_eq!(atari.cpu_state().instructions(), 0);
}

#[test]
fn snapshot_does_not_alias_the_console() {
    let mut atari = NtscAtari::new();
    let mut snap = atari.cpu_state();
    snap.set_a(0x00);
    assert_eq!(atari.cpu_state().a(), 0xDE);
    assert_eq!(atari.peek(0x1234), 0);
    atari.load_rom(0x1234, &[7]);
    assert_eq!(atari.peek(0x1234), 7);
}

#[test]
fn ntsc_frame_layout_and_palette() {
    let tv = ntsc_tv_config();
    assert_eq!((tv.vsync_lines, tv.vblank_lines, tv.draw_lines, tv.hblank_pixels), (3, 37, 192, 68));
    assert_eq!(NTSC_SCANLINES, 262);
    assert_eq!(NTSC_PIXELS_PER_SCANLINE, 228);
    assert_eq!(tv.palette.len(), 256);
    assert_eq!(tv.palette[0], 0xFF000000);
    assert_eq!(tv.palette[3], 0xFF1A1A1A);
    assert_eq!(tv.palette[255], 0xFFFEDF70);
}
