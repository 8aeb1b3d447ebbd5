use chip8::chip8::Chip8;
use chip8::display::{scale_fb, COLOR_OFF, COLOR_ON, SCALED_HEIGHT, SCALED_LEN, SCALED_WIDTH, SCREEN_SCALE};
use chip8::keymap::{map_key, HostKey};

#[test]
fn scale_of_a_dark_frame_is_dark() {
    let vm = Chip8::new();
    let mut screen = vec![0x123456u32; SCALED_LEN];
    scale_fb(vm.video_frame_buffer(), &mut screen);
    assert_eq!(screen.len(), 204800);
    assert!(screen.iter().all(|c| *c == COLOR_OFF));
}

#[test]
fn scale_turns_every_cell_into_a_square() {
    let mut vm = Chip8::new();
    vm.op_6xkk(0, 4);
    vm.op_fx29(0);
    vm.op_6xkk(0, 61);
    vm.op_6xkk(1, 29);
    vm.op_dxyn(0, 1, 5);
    let fb = *vm.video_frame_buffer();
    let mut screen = vec![0u32; SCALED_LEN];
    scale_fb(&fb, &mut screen);
    assert_eq!(SCALED_WIDTH, 64 * SCREEN_SCALE);
    assert_eq!(SCALED_HEIGHT, 32 * SCREEN_SCALE);
    let mut on = 0;
    for dy in 0..SCALED_HEIGHT {
        for dx in 0..SCALED_WIDTH {
            let cell = fb[(dy / 10) * 64 + dx / 10];
            let expected = if cell != 0 { 0xFFFFFF } else { 0 };
            assert_eq!(screen[dy * SCALED_WIDTH + dx], expected);
            if cell != 0 {
                on += 1;
            }
        }
    }
    assert_eq!(on, 100 * fb.iter().filter(|c| **c == 1).count());
    assert!(on > 0);
}

#[test]
fn scale_exact_pixels() {
    let mut fb = [0u8; 2048];
    fb[65] = 1;
    let mut screen = vec![0u32; SCALED_LEN];
    scale_fb(&fb, &mut screen);
    assert_eq!(screen[10 * 640 + 10], COLOR_ON);
    assert_eq!(screen[19 * 640 + 19], COLOR_ON);
    assert_eq!(screen[10 * 640 + 9], COLOR_OFF);
    assert_eq!(screen[9 * 640 + 10], COLOR_OFF);
    assert_eq!(screen[20 * 640 + 10], COLOR_OFF);
    assert_eq!(screen[10 * 640 + 20], COLOR_OFF);
    assert_eq!(screen.iter().filter(|c| **c == COLOR_ON).count(), 100);
}

#[test]
fn keyboard_block_maps_onto_the_keypad() {
    assert_eq!(map_key(HostKey::X), Some(0x0));
    assert_eq!(map_key(HostKey::Key1), Some(0x1));
    assert_eq!(map_key(HostKey::Key2), Some(0x2));
    assert_eq!(map_key(HostKey::Key3), Some(0x3));
    assert_eq!(map_key(HostKey::Q), Some(0x4));
    assert_eq!(map_key(HostKey::W), Some(0x5));
    assert_eq!(map_key(HostKey::E), Some(0x6));
    assert_eq!(map_key(HostKey::A), Some(0x7));
    assert_eq!(map_key(HostKey::S), Some(0x8));
    assert_eq!(map_key(HostKey::D), Some(0x9));
    assert_eq!(map_key(HostKey::Z), Some(0xA));
    assert_eq!(map_key(HostKey::C), Some(0xB));
    assert_eq!(map_key(HostKey::Key4), Some(0xC));
    assert_eq!(map_key(HostKey::R), Some(0xD));
    assert_eq!(map_key(HostKey::F), Some(0xE));
    assert_eq!(map_key(HostKey::V), Some(0xF));
    assert_eq!(map_key(HostKey::Other), None);
}

#[test]
fn every_keypad_line_has_exactly_one_key() {
    let keys = [
        HostKey::Key1, HostKey::Key2, HostKey::Key3, HostKey::Key4,
        HostKey::Q, HostKey::W, HostKey::E, HostKey::R,
        HostKey::A, HostKey::S, HostKey::D, HostKey::F,
        HostKey::Z, HostKey::X, HostKey::C, HostKey::V,
    ];
    let mut count = [0; 16];
    for key in keys {
        count[map_key(key).unwrap()] += 1;
    }
    assert_eq!(count, [1; 16]);
}

#[test]
fn mapped_key_presses_its_line() {
    let mut vm = Chip8::new();
    let line = map_key(HostKey::R).unwrap();
    vm.set_key(line, true);
    for k in 0..16 {
        assert_eq!(vm.key(k), k == 0xD);
    }
    vm.set_key(line, false);
    assert!(!vm.key(0xD));
}
