use termios::control::{Char, CSIZE};
use termios::traits::{Contains, Get, SetFlag};
use termios::{input, local, output, raw, Termios, When};

fn populated_raw() -> raw::Termios {
    let mut cc = [0u8; 32];
    for (i, slot) in cc.iter_mut().enumerate() {
        *slot = (i as u8) * 3 + 1;
    }
    raw::Termios {
        c_iflag: raw::ICRNL | raw::IXON,
        c_oflag: raw::ONLCR | raw::OPOST,
        c_cflag: raw::CS8 | raw::CREAD,
        c_lflag: raw::ECHO | raw::ICANON | raw::ISIG | raw::IEXTEN | raw::ECHOE,
        c_line: 5,
        c_cc: cc,
        c_ispeed: raw::B38400,
        c_ospeed: raw::B38400,
    }
}

#[test]
fn raw_round_trip_is_identity() {
    let before = populated_raw();
    let after = Termios::from_raw(before).into_raw();
    assert_eq!(after.c_iflag, before.c_iflag);
    assert_eq!(after.c_oflag, before.c_oflag);
    assert_eq!(after.c_cflag, before.c_cflag);
    assert_eq!(after.c_lflag, before.c_lflag);
    assert_eq!(after.c_line, before.c_line);
    assert_eq!(after.c_cc, before.c_cc);
    assert_eq!(after.c_ispeed, before.c_ispeed);
    assert_eq!(after.c_ospeed, before.c_ospeed);
}

#[test]
fn wrapper_sees_raw_fields() {
    let t = Termios::from_raw(populated_raw());
    assert!(t.contains(input::Flag::ICRNL));
    assert!(t.contains(output::Flag::ONLCR));
    assert!(t.contains(local::Flag::ECHO));
    assert_eq!(t.get::<CSIZE>(), CSIZE::CS8);
    assert_eq!(t.cc.get(Char::VINTR), 1);
}

#[test]
fn make_raw_clears_canonical_mode_and_echo() {
    let mut t = Termios::from_raw(populated_raw());
    assert!(t.contains(local::Flag::ICANON));
    assert!(t.contains(local::Flag::ECHO));
    t.make_raw();
    assert!(!t.contains(local::Flag::ICANON));
    assert!(!t.contains(local::Flag::ECHO));
    assert!(!t.contains(local::Flag::ISIG));
    assert!(!t.contains(input::Flag::ICRNL));
    assert!(!t.contains(input::Flag::IXON));
    assert!(!t.contains(output::Flag::OPOST));
    // The newline-translation flag survives; only post-processing is off.
    assert!(t.contains(output::Flag::ONLCR));
    assert_eq!(t.get::<CSIZE>(), CSIZE::CS8);
    assert_eq!(t.cc.get(Char::VMIN), 1);
    assert_eq!(t.cc.get(Char::VTIME), 0);
}

#[test]
fn timing_policy_codes() {
    assert_eq!(When::Now.to_raw(), raw::TCSANOW);
    assert_eq!(When::AfterDrain.to_raw(), raw::TCSADRAIN);
    assert_eq!(When::AfterFlush.to_raw(), raw::TCSAFLUSH);
}

#[test]
fn whole_record_debug_listing() {
    let mut cc = [0u8; 32];
    cc[raw::VEOF as usize] = 4;
    let t = Termios::from_raw(raw::Termios {
        c_iflag: raw::ICRNL | raw::IXON,
        c_oflag: raw::ONLCR | raw::OPOST,
        c_cflag: raw::CS8 | raw::CREAD,
        c_lflag: raw::ECHO | raw::ICANON,
        c_line: 0,
        c_cc: cc,
        c_ispeed: raw::B38400,
        c_ospeed: raw::B9600,
    });
    let s = t.debug_string();
    assert!(s.starts_with("iflag:\tICRNL | IXON\noflag:\tONLCR | OPOST\ncflag:\tCS8 | CREAD\n"));
    assert!(s.contains("lflag:\tECHO | ICANON\n"));
    assert!(s.contains("cc:\tVDISCARD: 0, VEOF: 4,"));
    assert!(s.ends_with("ispeed:\tB38400\nospeed:\tB9600"));
}
