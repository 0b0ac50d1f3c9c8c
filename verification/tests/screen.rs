//! The framebuffer, the keypad maps, and drawing through the engine.

use rc201_8::display::{Display, DisplayDrawResult, DisplayDummy, FrameBuffer};
use rc201_8::emu::Emu;
use rc201_8::keypad::Key;

#[test]
fn keypad_byte_round_trip() {
    let emu = Emu::new(DisplayDummy::new());
    for b in 1u8..=15 {
        let k = emu.key_from_u8(&b);
        assert_ne!(k, Key::Unknown);
        assert_eq!(emu.key_to_u8(&k), b);
    }
    assert_eq!(emu.key_from_u8(&0), Key::Unknown);
    assert_eq!(emu.key_from_u8(&16), Key::Unknown);
    assert_eq!(emu.key_to_u8(&Key::Unknown), 0);
}

#[test]
fn keypad_dense_indices() {
    let emu = Emu::new(DisplayDummy::new());
    assert_eq!(emu.key_to_index(&Key::K1), Some(0));
    assert_eq!(emu.key_to_index(&Key::KF), Some(14));
    assert_eq!(emu.key_to_index(&Key::Unknown), None);
}

#[test]
fn unknown_key_reads_as_not_pressed() {
    let emu = Emu::new(DisplayDummy::new());
    assert!(!emu.key_pressed(&Key::Unknown));
}

#[test]
fn any_key_scans_in_order() {
    let mut emu = Emu::new(DisplayDummy::new());
    assert_eq!(emu.any_key_pressed(), None);
    emu.key_down(Key::K5);
    emu.key_down(Key::K2);
    assert_eq!(emu.any_key_pressed(), Some(Key::K2));
    emu.key_up(Key::K2);
    assert_eq!(emu.any_key_pressed(), Some(Key::K5));
    emu.key_up(Key::K5);
    assert_eq!(emu.any_key_pressed(), None);
}

#[test]
fn fresh_buffer_is_clear() {
    let fb = FrameBuffer::new_buffer();
    for y in 0..32 {
        for x in 0..64 {
            assert!(!fb.pixel(x, y));
        }
    }
}

#[test]
fn clear_twice_leaves_all_zero() {
    let mut fb = FrameBuffer::new_buffer();
    let sprite = vec![0xFF_u8; 4];
    fb.draw_sprite(10, 10, &sprite);
    fb.clear_pixels();
    fb.clear_pixels();
    for y in 0..32 {
        for x in 0..64 {
            assert!(!fb.pixel(x, y));
        }
    }
}

#[test]
fn draw_sets_pixels_and_reports_free() {
    let mut fb = FrameBuffer::new_buffer();
    let sprite = vec![0b1010_0000_u8];
    let r = fb.draw_sprite(4, 2, &sprite);
    assert_eq!(r, DisplayDrawResult::Free);
    assert!(fb.pixel(4, 2));
    assert!(!fb.pixel(5, 2));
    assert!(fb.pixel(6, 2));
    assert!(!fb.pixel(7, 2));
}

#[test]
fn draw_twice_cancels_and_collides() {
    let mut fb = FrameBuffer::new_buffer();
    let sprite = vec![0x3C_u8, 0x42, 0x42, 0x3C];
    assert_eq!(fb.draw_sprite(20, 5, &sprite), DisplayDrawResult::Free);
    assert_eq!(fb.draw_sprite(20, 5, &sprite), DisplayDrawResult::Collision);
    for y in 0..32 {
        for x in 0..64 {
            assert!(!fb.pixel(x, y));
        }
    }
}

#[test]
fn draw_wraps_at_the_edges() {
    let mut fb = FrameBuffer::new_buffer();
    let sprite = vec![0b1000_0001_u8];
    fb.draw_sprite(60, 31, &sprite);
    assert!(fb.pixel(60, 31));
    // the row's last pixel wraps around to column 3
    assert!(fb.pixel(3, 31));
    let below = vec![0b1000_0000_u8, 0b1000_0000];
    fb.draw_sprite(0, 31, &below);
    assert!(fb.pixel(0, 31));
    // the second row wraps around to the top
    assert!(fb.pixel(0, 0));
}

#[test]
fn draw_collision_through_the_engine() {
    let mut emu = Emu::new(FrameBuffer::new_buffer());
    // I = 0x300 (a one-pixel sprite), then draw it twice at (V0, V1)
    emu.load_rom(&[0xA3, 0x00, 0xD0, 0x11, 0xD0, 0x11]).ok().unwrap();
    emu.mem_put(&0x300, 0x80).ok().unwrap();
    emu.step().ok().unwrap();
    emu.step().ok().unwrap();
    assert_eq!(emu.reg_get(&0xF).ok().unwrap(), 0);
    assert!(emu.display_ref().pixel(0, 0));
    emu.step().ok().unwrap();
    assert_eq!(emu.reg_get(&0xF).ok().unwrap(), 1);
    assert!(!emu.display_ref().pixel(0, 0));
}

#[test]
fn cls_clears_through_the_engine() {
    let mut emu = Emu::new(FrameBuffer::new_buffer());
    emu.load_rom(&[0xA3, 0x00, 0xD0, 0x11, 0x00, 0xE0, 0x00, 0xE0]).ok().unwrap();
    emu.mem_put(&0x300, 0x80).ok().unwrap();
    emu.step().ok().unwrap();
    emu.step().ok().unwrap();
    assert!(emu.display_ref().pixel(0, 0));
    emu.step().ok().unwrap();
    emu.step().ok().unwrap();
    for y in 0..32 {
        for x in 0..64 {
            assert!(!emu.display_ref().pixel(x, y));
        }
    }
}

#[test]
fn draw_at_register_coordinates() {
    let mut emu = Emu::new(FrameBuffer::new_buffer());
    emu.load_rom(&[0xA3, 0x00, 0xD0, 0x11]).ok().unwrap();
    emu.mem_put(&0x300, 0x80).ok().unwrap();
    emu.reg_put(&0, 12).ok().unwrap();
    emu.reg_put(&1, 7).ok().unwrap();
    emu.step().ok().unwrap();
    emu.step().ok().unwrap();
    // the sprite lands at (V[0], V[1]), not at the register indices
    assert!(emu.display_ref().pixel(12, 7));
    assert!(!emu.display_ref().pixel(0, 1));
}
