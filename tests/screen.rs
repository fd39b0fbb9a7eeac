use rustari::cpu::Atari;
use rustari::memory::{write_rom_to_mem, LOAD_ADDR, MEM_SIZE};
use rustari::screen::{pixel_color, World, BOX_SIZE, HEIGHT, WIDTH};
use rustari::semantics::CpuError;

const GREEN: [u8; 4] = [0x00, 0xff, 0x00, 0xff];
const RED: [u8; 4] = [0xff, 0x00, 0x00, 0xff];
const BLACK: [u8; 4] = [0x00, 0x00, 0x00, 0xff];

#[test]
fn pixel_colors() {
    assert_eq!(pixel_color(1, 0x00), BLACK);
    assert_eq!(pixel_color(1, 0x30), RED);
    assert_eq!(pixel_color(68, 0x30), GREEN);
    assert_eq!(pixel_color(68 + 5 * 228, 0x00), GREEN);
    assert_eq!(pixel_color(37 * 228 + 3, 0x00), GREEN);
    assert_eq!(pixel_color(229 * 228 + 100, 0x30), GREEN);
    assert_eq!(pixel_color(230 * 228 + 100, 0x30), RED);
}

#[test]
fn world_bounces_inside_the_screen() {
    let mut world = World::new();
    assert_eq!(world.position(), (24, 16));
    world.update();
    assert_eq!(world.position(), (25, 17));
    let mut max_x = 0;
    let mut min_x = i16::MAX;
    for _ in 0..1000 {
        world.update();
        let (x, y) = world.position();
        assert!(x >= 0 && x + BOX_SIZE <= WIDTH as i16 + 1);
        assert!(y >= 0 && y + BOX_SIZE <= HEIGHT as i16 + 1);
        max_x = max_x.max(x);
        min_x = min_x.min(x);
    }
    assert_eq!(max_x, WIDTH as i16 - BOX_SIZE + 1);
    assert_eq!(min_x, 0);
}

#[test]
fn draw_steps_the_processor_and_follows_the_video_cell() {
    // LDA #$30; STA $09
    let rom = vec![0xA9, 0x30, 0x85, 0x09];
    let mut atari = Atari::new(write_rom_to_mem(rom), LOAD_ADDR);
    let world = World::new();
    let mut frame = vec![0u8; 4 * 10 + 2];
    let mut timer = 0usize;
    assert_eq!(world.draw(&mut frame, &mut atari, &mut timer), Ok(()));
    assert_eq!(timer, 10);
    // three pixels stand for one cycle: LDA runs at pixel 1, STA once the
    // timer passes the 2 cycles LDA took, at pixel 7
    assert_eq!(atari.cycles(), 5);
    assert_eq!(atari.read_mem(0x09), 0x30);
    for i in 0..8 {
        assert_eq!(&frame[4 * i..4 * i + 4], &BLACK);
    }
    for i in 8..10 {
        assert_eq!(&frame[4 * i..4 * i + 4], &RED);
    }
    // the two bytes past the last whole pixel are left alone
    assert_eq!(&frame[40..], &[0, 0]);
}

#[test]
fn draw_stops_at_a_failed_step() {
    let mut memory = [0u8; MEM_SIZE];
    memory[LOAD_ADDR] = 0xFF;
    let mut atari = Atari::new(memory, LOAD_ADDR);
    let world = World::new();
    let mut frame = vec![7u8; 4 * 4];
    let mut timer = 1usize;
    assert_eq!(
        world.draw(&mut frame, &mut atari, &mut timer),
        Err(CpuError::UnimplementedOpcode(0xFF))
    );
    assert_eq!(&frame[0..4], &BLACK);
    assert_eq!(&frame[4..], &[7u8; 12]);
    assert_eq!(timer, 1);
}
