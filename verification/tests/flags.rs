use termios::input;
use termios::local;
use termios::output;
use termios::raw;
use termios::traits::{Clear, Contains, SetFlag};
use termios::Termios;

fn blank() -> Termios {
    Termios::from_raw(raw::Termios::default())
}

#[test]
fn set_then_contains_input() {
    let mut t = blank();
    assert!(!t.contains(input::Flag::IXON));
    t.set(input::Flag::IXON);
    assert!(t.contains(input::Flag::IXON));
    t.set(input::Flag::ICRNL);
    assert!(t.contains(input::Flag::ICRNL));
    assert!(t.contains(input::Flag::IXON));
    assert!(!t.contains(input::Flag::BRKINT));
}

#[test]
fn clear_then_not_contains_input() {
    let mut t = blank();
    t.set(input::Flag::IXOFF);
    t.set(input::Flag::PARMRK);
    t.clear(input::Flag::IXOFF);
    assert!(!t.contains(input::Flag::IXOFF));
    assert!(t.contains(input::Flag::PARMRK));
}

#[test]
fn set_is_idempotent() {
    let mut once = blank();
    once.set(local::Flag::ECHO);
    let mut twice = blank();
    twice.set(local::Flag::ECHO);
    twice.set(local::Flag::ECHO);
    assert_eq!(once.into_raw().c_lflag, twice.into_raw().c_lflag);
}

#[test]
fn clear_is_idempotent() {
    let mut once = blank();
    once.set(local::Flag::ECHO);
    once.set(local::Flag::ICANON);
    let mut twice = once;
    once.clear(local::Flag::ECHO);
    twice.clear(local::Flag::ECHO);
    twice.clear(local::Flag::ECHO);
    assert_eq!(once.into_raw().c_lflag, twice.into_raw().c_lflag);
    assert!(twice.contains(local::Flag::ICANON));
}

#[test]
fn output_flags_round_trip() {
    let mut t = blank();
    t.set(output::Flag::ONLCR);
    t.set(output::Flag::OPOST);
    assert!(t.contains(output::Flag::ONLCR));
    assert!(t.contains(output::Flag::OPOST));
    t.clear(output::Flag::ONLCR);
    assert!(!t.contains(output::Flag::ONLCR));
    assert!(t.contains(output::Flag::OPOST));
}

#[test]
fn local_flags_round_trip() {
    let mut t = blank();
    t.set(local::Flag::ISIG);
    t.set(local::Flag::TOSTOP);
    assert!(t.contains(local::Flag::ISIG));
    t.clear(local::Flag::ISIG);
    assert!(!t.contains(local::Flag::ISIG));
    assert!(t.contains(local::Flag::TOSTOP));
}

#[test]
fn flag_masks_match_platform_constants() {
    assert_eq!(input::Flag::IXON.to_raw(), raw::IXON);
    assert_eq!(input::Flag::ICRNL.to_raw(), raw::ICRNL);
    assert_eq!(output::Flag::OPOST.to_raw(), raw::OPOST);
    assert_eq!(output::Flag::ONLCR.to_raw(), raw::ONLCR);
    assert_eq!(local::Flag::ECHO.to_raw(), raw::ECHO);
    assert_eq!(local::Flag::ICANON.to_raw(), raw::ICANON);
}

#[test]
fn input_debug_listing_is_canonical() {
    let mut t = blank();
    t.set(input::Flag::IXON);
    t.set(input::Flag::ICRNL);
    assert_eq!(t.iflag.debug_string(), "ICRNL | IXON");
    let empty = blank();
    assert_eq!(empty.iflag.debug_string(), "");
}

#[test]
fn local_debug_listing_is_canonical() {
    let mut t = blank();
    t.set(local::Flag::ISIG);
    t.set(local::Flag::ECHO);
    t.set(local::Flag::ECHOE);
    assert_eq!(t.lflag.debug_string(), "ECHOE | ECHO | ISIG");
}

#[test]
fn output_debug_listing_is_canonical() {
    let mut t = blank();
    t.set(output::Flag::OPOST);
    t.set(output::Flag::ONLCR);
    assert_eq!(t.oflag.debug_string(), "ONLCR | OPOST");
}
