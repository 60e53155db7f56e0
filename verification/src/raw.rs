//! Raw layout of the terminal-attributes record: the integer widths, the
//! bit constants of the four flag words, the control-character indices, the
//! baud-rate codes and the timing-policy codes, all as the Linux kernel ABI
//! defines them, together with the plain record in that layout.

use vstd::prelude::*;

verus! {

/// A control character, one byte.
pub type cc_t = u8;

/// A baud-rate code.
pub type speed_t = u32;

/// A packed flag word.
pub type tcflag_t = u32;

/// Length of the control-character array.
pub const NCCS: usize = 32;

// Control-character indices.
pub const VINTR: cc_t = 0;
pub const VQUIT: cc_t = 1;
pub const VERASE: cc_t = 2;
pub const VKILL: cc_t = 3;
pub const VEOF: cc_t = 4;
pub const VTIME: cc_t = 5;
pub const VMIN: cc_t = 6;
pub const VSWTC: cc_t = 7;
pub const VSTART: cc_t = 8;
pub const VSTOP: cc_t = 9;
pub const VSUSP: cc_t = 10;
pub const VEOL: cc_t = 11;
pub const VREPRINT: cc_t = 12;
pub const VDISCARD: cc_t = 13;
pub const VWERASE: cc_t = 14;
pub const VLNEXT: cc_t = 15;
pub const VEOL2: cc_t = 16;

// Input flag word bits.
pub const IGNBRK: tcflag_t = 0o000001;
pub const BRKINT: tcflag_t = 0o000002;
pub const IGNPAR: tcflag_t = 0o000004;
pub const PARMRK: tcflag_t = 0o000010;
pub const INPCK: tcflag_t = 0o000020;
pub const ISTRIP: tcflag_t = 0o000040;
pub const INLCR: tcflag_t = 0o000100;
pub const IGNCR: tcflag_t = 0o000200;
pub const ICRNL: tcflag_t = 0o000400;
pub const IUCLC: tcflag_t = 0o001000;
pub const IXON: tcflag_t = 0o002000;
pub const IXANY: tcflag_t = 0o004000;
pub const IXOFF: tcflag_t = 0o010000;
pub const IMAXBEL: tcflag_t = 0o020000;
pub const IUTF8: tcflag_t = 0o040000;

// Output flag word bits.
pub const OPOST: tcflag_t = 0o000001;
pub const OLCUC: tcflag_t = 0o000002;
pub const ONLCR: tcflag_t = 0o000004;
pub const OCRNL: tcflag_t = 0o000010;
pub const ONOCR: tcflag_t = 0o000020;
pub const ONLRET: tcflag_t = 0o000040;
pub const OFILL: tcflag_t = 0o000100;
pub const OFDEL: tcflag_t = 0o000200;

// Control flag word bits.
pub const CBAUD: tcflag_t = 0o010017;
pub const CSIZE: tcflag_t = 0o000060;
pub const CS5: tcflag_t = 0o000000;
pub const CS6: tcflag_t = 0o000020;
pub const CS7: tcflag_t = 0o000040;
pub const CS8: tcflag_t = 0o000060;
pub const CSTOPB: tcflag_t = 0o000100;
pub const CREAD: tcflag_t = 0o000200;
pub const PARENB: tcflag_t = 0o000400;
pub const PARODD: tcflag_t = 0o001000;
pub const HUPCL: tcflag_t = 0o002000;
pub const CLOCAL: tcflag_t = 0o004000;
pub const CBAUDEX: tcflag_t = 0o010000;
pub const CIBAUD: tcflag_t = 0o02003600000;
pub const CMSPAR: tcflag_t = 0o10000000000;
pub const CRTSCTS: tcflag_t = 0o20000000000;

// Local flag word bits.
pub const ISIG: tcflag_t = 0o000001;
pub const ICANON: tcflag_t = 0o000002;
pub const XCASE: tcflag_t = 0o000004;
pub const ECHO: tcflag_t = 0o000010;
pub const ECHOE: tcflag_t = 0o000020;
pub const ECHOK: tcflag_t = 0o000040;
pub const ECHONL: tcflag_t = 0o000100;
pub const NOFLSH: tcflag_t = 0o000200;
pub const TOSTOP: tcflag_t = 0o000400;
pub const ECHOCTL: tcflag_t = 0o001000;
pub const ECHOPRT: tcflag_t = 0o002000;
pub const ECHOKE: tcflag_t = 0o004000;
pub const FLUSHO: tcflag_t = 0o010000;
pub const PENDIN: tcflag_t = 0o040000;
pub const IEXTEN: tcflag_t = 0o100000;
pub const EXTPROC: tcflag_t = 0o200000;

// Baud-rate codes.
pub const B0: speed_t = 0o000000;
pub const B50: speed_t = 0o000001;
pub const B75: speed_t = 0o000002;
pub const B110: speed_t = 0o000003;
pub const B134: speed_t = 0o000004;
pub const B150: speed_t = 0o000005;
pub const B200: speed_t = 0o000006;
pub const B300: speed_t = 0o000007;
pub const B600: speed_t = 0o000010;
pub const B1200: speed_t = 0o000011;
pub const B1800: speed_t = 0o000012;
pub const B2400: speed_t = 0o000013;
pub const B4800: speed_t = 0o000014;
pub const B9600: speed_t = 0o000015;
pub const B19200: speed_t = 0o000016;
pub const B38400: speed_t = 0o000017;
pub const EXTA: speed_t = 0o000016;
pub const EXTB: speed_t = 0o000017;
pub const B57600: speed_t = 0o010001;
pub const B115200: speed_t = 0o010002;
pub const B230400: speed_t = 0o010003;

// Timing policies understood by the set-attributes syscall.
pub const TCSANOW: i32 = 0;
pub const TCSADRAIN: i32 = 1;
pub const TCSAFLUSH: i32 = 2;

// Queue selectors of the flush and flow syscalls.
pub const TCOOFF: i32 = 0;
pub const TCOON: i32 = 1;
pub const TCIOFF: i32 = 2;
pub const TCION: i32 = 3;
pub const TCIFLUSH: i32 = 0;
pub const TCOFLUSH: i32 = 1;
pub const TCIOFLUSH: i32 = 2;

/// The terminal-attributes record exactly as the kernel hands it out:
/// four flag words, the line-discipline byte, the control-character
/// array and the two speed codes.
#[derive(Clone, Copy)]
pub struct Termios {
    pub c_iflag: tcflag_t,
    pub c_oflag: tcflag_t,
    pub c_cflag: tcflag_t,
    pub c_lflag: tcflag_t,
    pub c_line: cc_t,
    pub c_cc: [cc_t; 32],
    pub c_ispeed: speed_t,
    pub c_ospeed: speed_t,
}

impl View for Termios {
    type V = crate::TermiosView;

    open spec fn view(&self) -> crate::TermiosView {
        crate::TermiosView {
            iflag: self.c_iflag,
            oflag: self.c_oflag,
            cflag: self.c_cflag,
            lflag: self.c_lflag,
            line: self.c_line,
            cc: self.c_cc@,
            ispeed: self.c_ispeed,
            ospeed: self.c_ospeed,
        }
    }
}

impl Default for Termios {
    /// A zero-initialized record, as the fetch syscall expects one.
    fn default() -> (r: Termios)
        ensures
            r@.iflag == 0,
            r@.oflag == 0,
            r@.cflag == 0,
            r@.lflag == 0,
            r@.line == 0,
            r@.cc.len() == NCCS,
            forall|i: int| 0 <= i < NCCS ==> r@.cc[i] == 0,
            r@.ispeed == 0,
            r@.ospeed == 0,
    {
        Termios {
            c_iflag: 0,
            c_oflag: 0,
            c_cflag: 0,
            c_lflag: 0,
            c_line: 0,
            c_cc: [0; 32],
            c_ispeed: 0,
            c_ospeed: 0,
        }
    }
}

} // verus!
