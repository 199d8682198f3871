use emu6502::bus::Bus;
use emu6502::cpu::CPU;
use emu6502::devices::{color, handle_user_input, read_screen_state, Queue, Shade};

fn palette() -> [[u8; 3]; 9] {
    let mut p = [[0u8; 3]; 9];
    for (i, rgb) in p.iter_mut().enumerate() {
        *rgb = [i as u8, 10 + i as u8, 20 + i as u8];
    }
    p
}

#[test]
fn queue_is_first_in_first_out() {
    let mut q = Queue::new();
    assert_eq!(q.pop(), 0);
    q.push(0x77);
    q.push(0x61);
    assert_eq!(q.pop(), 0x77);
    assert_eq!(q.pop(), 0x61);
    assert_eq!(q.pop(), 0);
}

#[test]
fn full_queue_drops_oldest() {
    let mut q = Queue::default();
    for k in 1..=31u8 {
        q.push(k);
    }
    q.push(32);
    for k in 2..=32u8 {
        assert_eq!(q.pop(), k);
    }
    assert_eq!(q.pop(), 0);
}

#[test]
fn user_input_reaches_input_address() {
    let mut c = CPU::new(Bus::new());
    let mut q = Queue::new();
    handle_user_input(&mut c, &mut q);
    assert_eq!(c.bus.read(0xFF), 0);
    q.push(0x64);
    handle_user_input(&mut c, &mut q);
    assert_eq!(c.bus.read(0xFF), 0x64);
    handle_user_input(&mut c, &mut q);
    assert_eq!(c.bus.read(0xFF), 0x64);
}

#[test]
fn screen_colors() {
    assert_eq!(color(0), Shade::Black);
    assert_eq!(color(1), Shade::White);
    assert_eq!(color(9), Shade::Grey);
    assert_eq!(color(3), Shade::Red);
    assert_eq!(color(11), Shade::Green);
    assert_eq!(color(5), Shade::Blue);
    assert_eq!(color(13), Shade::Magenta);
    assert_eq!(color(7), Shade::Yellow);
    assert_eq!(color(8), Shade::Cyan);
    assert_eq!(color(15), Shade::Cyan);
    assert_eq!(color(200), Shade::Cyan);
    assert_eq!(Shade::Cyan.slot(), 8);
}

#[test]
fn screen_frame_follows_memory() {
    let mut c = CPU::new(Bus::new());
    let pal = palette();
    let mut frame = [0u8; 3072];
    assert!(read_screen_state(&c, &mut frame, &pal));
    assert_eq!(&frame[0..3], &[0, 10, 20]);
    assert!(!read_screen_state(&c, &mut frame, &pal));

    c.bus.write(0x0200, 1);
    c.bus.write(0x05FF, 4);
    assert!(read_screen_state(&c, &mut frame, &pal));
    assert_eq!(&frame[0..3], &[1, 11, 21]);
    assert_eq!(&frame[3..6], &[0, 10, 20]);
    assert_eq!(&frame[3069..3072], &[4, 14, 24]);
}
