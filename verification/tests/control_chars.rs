use termios::control::{Char, Chars, CSIZE};
use termios::raw;
use termios::traits::{Contains, Get, SetFlag};
use termios::Termios;

fn blank() -> Termios {
    Termios::from_raw(raw::Termios::default())
}

#[test]
fn csize_set_and_read_back() {
    let mut t = blank();
    t.set(CSIZE::CS5);
    assert_eq!(t.get::<CSIZE>(), CSIZE::CS5);
    t.set(CSIZE::CS6);
    assert_eq!(t.get::<CSIZE>(), CSIZE::CS6);
    t.set(CSIZE::CS7);
    assert_eq!(t.get::<CSIZE>(), CSIZE::CS7);
    t.set(CSIZE::CS8);
    assert_eq!(t.get::<CSIZE>(), CSIZE::CS8);
}

#[test]
fn csize_leaves_other_control_bits_alone() {
    let mut t = blank();
    t.set(termios::control::Flag::CREAD);
    t.set(termios::control::Flag::HUPCL);
    t.set(CSIZE::CS8);
    t.set(CSIZE::CS5);
    assert!(t.contains(termios::control::Flag::CREAD));
    assert!(t.contains(termios::control::Flag::HUPCL));
    assert!(!t.contains(termios::control::Flag::PARENB));
}

#[test]
fn csize_patterns_match_platform_constants() {
    assert_eq!(CSIZE::CS5.to_raw(), raw::CS5);
    assert_eq!(CSIZE::CS6.to_raw(), raw::CS6);
    assert_eq!(CSIZE::CS7.to_raw(), raw::CS7);
    assert_eq!(CSIZE::CS8.to_raw(), raw::CS8);
    assert_eq!(CSIZE::from_raw(raw::CS7), CSIZE::CS7);
}

#[test]
fn char_write_then_read() {
    let mut t = blank();
    t.cc.set(Char::VEOF, 4);
    t.cc.set(Char::VINTR, 3);
    assert_eq!(t.cc.get(Char::VEOF), 4);
    assert_eq!(t.cc.get(Char::VINTR), 3);
}

#[test]
fn char_write_does_not_touch_other_roles() {
    let mut chars = Chars([7u8; 32]);
    chars.set(Char::VMIN, 1);
    assert_eq!(chars.get(Char::VMIN), 1);
    assert_eq!(chars.get(Char::VTIME), 7);
    assert_eq!(chars.get(Char::VEOF), 7);
    assert_eq!(chars.get(Char::VWERASE), 7);
}

#[test]
fn char_indices_match_platform_constants() {
    assert_eq!(Char::VINTR.to_raw(), raw::VINTR as usize);
    assert_eq!(Char::VQUIT.to_raw(), raw::VQUIT as usize);
    assert_eq!(Char::VEOF.to_raw(), raw::VEOF as usize);
    assert_eq!(Char::VMIN.to_raw(), raw::VMIN as usize);
    assert_eq!(Char::VTIME.to_raw(), raw::VTIME as usize);
    assert_eq!(Char::VEOL2.to_raw(), raw::VEOL2 as usize);
}

#[test]
fn chars_debug_lists_every_role() {
    let mut chars = Chars([0u8; 32]);
    chars.set(Char::VDISCARD, 15);
    chars.set(Char::VEOF, 4);
    chars.set(Char::VTIME, 200);
    chars.set(Char::VWERASE, 255);
    let s = chars.debug_string();
    assert!(s.starts_with("VDISCARD: 15, VEOF: 4, VEOL2: 0"));
    assert!(s.ends_with("VTIME: 200, VWERASE: 255"));
}

#[test]
fn control_debug_lists_csize_first() {
    let mut t = blank();
    t.set(CSIZE::CS8);
    t.set(termios::control::Flag::CREAD);
    assert_eq!(t.cflag.debug_string(), "CS8 | CREAD");
    let bare = blank();
    assert_eq!(bare.cflag.debug_string(), "CS5");
}
