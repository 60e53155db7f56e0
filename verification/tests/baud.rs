use termios::raw;
use termios::BaudRate;
use termios::Termios;

const ALL_RATES: [BaudRate; 19] = [
    BaudRate::B0,
    BaudRate::B50,
    BaudRate::B75,
    BaudRate::B110,
    BaudRate::B134,
    BaudRate::B150,
    BaudRate::B200,
    BaudRate::B300,
    BaudRate::B600,
    BaudRate::B1200,
    BaudRate::B1800,
    BaudRate::B2400,
    BaudRate::B4800,
    BaudRate::B9600,
    BaudRate::B19200,
    BaudRate::B38400,
    BaudRate::B57600,
    BaudRate::B115200,
    BaudRate::B230400,
];

const ALL_CODES: [u32; 19] = [
    raw::B0,
    raw::B50,
    raw::B75,
    raw::B110,
    raw::B134,
    raw::B150,
    raw::B200,
    raw::B300,
    raw::B600,
    raw::B1200,
    raw::B1800,
    raw::B2400,
    raw::B4800,
    raw::B9600,
    raw::B19200,
    raw::B38400,
    raw::B57600,
    raw::B115200,
    raw::B230400,
];

#[test]
fn to_raw_then_from_raw_is_identity() {
    for rate in ALL_RATES {
        assert_eq!(BaudRate::from_raw(rate.to_raw()), rate);
    }
}

#[test]
fn from_raw_then_to_raw_is_identity() {
    for code in ALL_CODES {
        assert_eq!(BaudRate::from_raw(code).to_raw(), code);
    }
}

#[test]
fn codes_match_platform_constants() {
    assert_eq!(BaudRate::B9600.to_raw(), 0o15);
    assert_eq!(BaudRate::B38400.to_raw(), 0o17);
    assert_eq!(BaudRate::B115200.to_raw(), 0o010002);
    assert_eq!(BaudRate::from_raw(0), BaudRate::B0);
}

#[test]
fn set_input_speed_and_read_back() {
    let mut t = Termios::from_raw(raw::Termios::default());
    t.set_ispeed(BaudRate::B9600);
    assert_eq!(t.ispeed(), BaudRate::B9600);
    assert_eq!(t.ospeed(), BaudRate::B0);
}

#[test]
fn set_both_speeds_and_read_back() {
    let mut t = Termios::from_raw(raw::Termios::default());
    t.set_ispeed(BaudRate::B9600);
    t.set_speed(BaudRate::B38400);
    assert_eq!(t.ispeed(), BaudRate::B38400);
    assert_eq!(t.ospeed(), BaudRate::B38400);
}

#[test]
fn set_output_speed_alone() {
    let mut t = Termios::from_raw(raw::Termios::default());
    t.set_ospeed(BaudRate::B230400);
    assert_eq!(t.ospeed(), BaudRate::B230400);
    assert_eq!(t.ispeed(), BaudRate::B0);
}

#[test]
fn rate_labels() {
    assert_eq!(BaudRate::B0.label(), "B0");
    assert_eq!(BaudRate::B38400.label(), "B38400");
    assert_eq!(BaudRate::B230400.label(), "B230400");
}
