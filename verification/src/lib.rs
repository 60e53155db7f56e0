//! Typed, safe access to a POSIX terminal-attributes record.
//!
//! The four flag words (input, output, control, local), the control-character
//! table and the two baud-rate fields are modelled as plain values; every
//! operation on them is specified and verified here. The syscalls that read
//! or write a live descriptor are left to the embedding program.

use vstd::prelude::*;
use vstd::string::StringExecFns;

pub mod control;
pub mod input;
pub mod local;
pub mod masks;
pub mod output;
pub mod raw;
pub mod traits;

verus! {

/// Mathematical model of a terminal-attributes record: the four packed flag
/// words, the line-discipline byte, the control-character table and the two
/// speed codes.
#[verifier::ext_equal]
pub ghost struct TermiosView {
    pub iflag: u32,
    pub oflag: u32,
    pub cflag: u32,
    pub lflag: u32,
    pub line: u8,
    pub cc: Seq<u8>,
    pub ispeed: u32,
    pub ospeed: u32,
}

/// Safe wrapper around `raw::Termios`
#[derive(Clone, Copy)]
pub struct Termios {
    /// Input flags
    pub iflag: input::Flags,
    /// Output flags
    pub oflag: output::Flags,
    /// Control flags
    pub cflag: control::Flags,
    /// Local flags
    pub lflag: local::Flags,
    /// Line discipline
    pub line: raw::cc_t,
    /// Control characters
    pub cc: control::Chars,
    /// Input speed code
    pub ispeed: raw::speed_t,
    /// Output speed code
    pub ospeed: raw::speed_t,
}

impl View for Termios {
    type V = TermiosView;

    open spec fn view(&self) -> TermiosView {
        TermiosView {
            iflag: self.iflag@,
            oflag: self.oflag@,
            cflag: self.cflag@,
            lflag: self.lflag@,
            line: self.line,
            cc: self.cc@,
            ispeed: self.ispeed,
            ospeed: self.ospeed,
        }
    }
}

impl Termios {
    /// Puts a raw record into the safe wrapper; no field is dropped or
    /// reordered, so the models coincide.
    pub fn from_raw(termios: raw::Termios) -> (r: Termios)
        ensures
            r@ == termios@,
    {
        let r = Termios {
            iflag: input::Flags(termios.c_iflag),
            oflag: output::Flags(termios.c_oflag),
            cflag: control::Flags(termios.c_cflag),
            lflag: local::Flags(termios.c_lflag),
            line: termios.c_line,
            cc: control::Chars(termios.c_cc),
            ispeed: termios.c_ispeed,
            ospeed: termios.c_ospeed,
        };
        proof {
            assert(r@ =~= termios@);
        }
        r
    }

    /// Converts the safe wrapper into its raw representation; the models
    /// coincide, so converting back is the identity.
    pub fn into_raw(self) -> (r: raw::Termios)
        ensures
            r@ == self@,
    {
        let r = raw::Termios {
            c_iflag: self.iflag.0,
            c_oflag: self.oflag.0,
            c_cflag: self.cflag.0,
            c_lflag: self.lflag.0,
            c_line: self.line,
            c_cc: self.cc.0,
            c_ispeed: self.ispeed,
            c_ospeed: self.ospeed,
        };
        proof {
            assert(r@ =~= self@);
        }
        r
    }

    /// Returns the input baud rate
    pub fn ispeed(&self) -> (r: BaudRate)
        requires
            valid_code(self@.ispeed),
        ensures
            r == baud_of(self@.ispeed),
    {
        BaudRate::from_raw(self.ispeed)
    }

    /// Returns the output baud rate
    pub fn ospeed(&self) -> (r: BaudRate)
        requires
            valid_code(self@.ospeed),
        ensures
            r == baud_of(self@.ospeed),
    {
        BaudRate::from_raw(self.ospeed)
    }

    /// Sets the input baud rate
    pub fn set_ispeed(&mut self, rate: BaudRate)
        ensures
            final(self)@ == (TermiosView { ispeed: baud_code(rate), ..old(self)@ }),
    {
        self.ispeed = rate.to_raw();
        proof {
            assert(self@ =~= (TermiosView { ispeed: baud_code(rate), ..old(self)@ }));
        }
    }

    /// Sets the output baud rate
    pub fn set_ospeed(&mut self, rate: BaudRate)
        ensures
            final(self)@ == (TermiosView { ospeed: baud_code(rate), ..old(self)@ }),
    {
        self.ospeed = rate.to_raw();
        proof {
            assert(self@ =~= (TermiosView { ospeed: baud_code(rate), ..old(self)@ }));
        }
    }

    /// Sets both the input and the output baud rates
    pub fn set_speed(&mut self, rate: BaudRate)
        ensures
            final(self)@ == (TermiosView {
                ispeed: baud_code(rate),
                ospeed: baud_code(rate),
                ..old(self)@
            }),
    {
        let code = rate.to_raw();
        self.ispeed = code;
        self.ospeed = code;
        proof {
            assert(self@ =~= (TermiosView {
                ispeed: baud_code(rate),
                ospeed: baud_code(rate),
                ..old(self)@
            }));
        }
    }

    /// Puts the record in "raw" mode: the one well-known transform that
    /// disables canonical line processing, signal generation, echo and most
    /// input/output translation.
    pub fn make_raw(&mut self)
        ensures
            final(self)@ == spec_make_raw(old(self)@),
    {
        self.iflag.0 = self.iflag.0 & !(raw::IGNBRK | raw::BRKINT | raw::PARMRK | raw::ISTRIP
            | raw::INLCR | raw::IGNCR | raw::ICRNL | raw::IXON);
        self.oflag.0 = self.oflag.0 & !raw::OPOST;
        self.cflag.0 = self.cflag.0 & !(raw::CSIZE | raw::PARENB);
        self.cflag.0 = self.cflag.0 | raw::CS8;
        self.lflag.0 = self.lflag.0 & !(raw::ECHO | raw::ECHONL | raw::ICANON | raw::ISIG
            | raw::IEXTEN);
        self.cc.set(control::Char::VMIN, 1);
        self.cc.set(control::Char::VTIME, 0);
        proof {
            assert(self@ =~= spec_make_raw(old(self)@));
        }
    }
}

/// The printed name of a symbolic baud rate.
pub open spec fn baud_label(r: BaudRate) -> Seq<char> {
    match r {
        BaudRate::B0 => "B0"@,
        BaudRate::B50 => "B50"@,
        BaudRate::B75 => "B75"@,
        BaudRate::B110 => "B110"@,
        BaudRate::B134 => "B134"@,
        BaudRate::B150 => "B150"@,
        BaudRate::B200 => "B200"@,
        BaudRate::B300 => "B300"@,
        BaudRate::B600 => "B600"@,
        BaudRate::B1200 => "B1200"@,
        BaudRate::B1800 => "B1800"@,
        BaudRate::B2400 => "B2400"@,
        BaudRate::B4800 => "B4800"@,
        BaudRate::B9600 => "B9600"@,
        BaudRate::B19200 => "B19200"@,
        BaudRate::B38400 => "B38400"@,
        BaudRate::B57600 => "B57600"@,
        BaudRate::B115200 => "B115200"@,
        BaudRate::B230400 => "B230400"@,
    }
}

/// The canonical multi-line debug listing of a whole record: each part on
/// its own labelled line, the speeds by their symbolic names.
pub open spec fn spec_debug_termios(v: TermiosView) -> Seq<char> {
    "iflag:\t"@ + input::spec_debug(v.iflag) + "\noflag:\t"@ + output::spec_debug(v.oflag)
        + "\ncflag:\t"@ + control::spec_debug(v.cflag) + "\nlflag:\t"@ + local::spec_debug(
        v.lflag,
    ) + "\ncc:\t"@ + control::spec_debug_chars(v.cc) + "\nispeed:\t"@ + baud_label(
        baud_of(v.ispeed),
    ) + "\nospeed:\t"@ + baud_label(baud_of(v.ospeed))
}

impl BaudRate {
    /// The printed name of this rate.
    pub fn label(&self) -> (r: &'static str)
        ensures
            r@ == baud_label(*self),
    {
        match *self {
            BaudRate::B0 => "B0",
            BaudRate::B50 => "B50",
            BaudRate::B75 => "B75",
            BaudRate::B110 => "B110",
            BaudRate::B134 => "B134",
            BaudRate::B150 => "B150",
            BaudRate::B200 => "B200",
            BaudRate::B300 => "B300",
            BaudRate::B600 => "B600",
            BaudRate::B1200 => "B1200",
            BaudRate::B1800 => "B1800",
            BaudRate::B2400 => "B2400",
            BaudRate::B4800 => "B4800",
            BaudRate::B9600 => "B9600",
            BaudRate::B19200 => "B19200",
            BaudRate::B38400 => "B38400",
            BaudRate::B57600 => "B57600",
            BaudRate::B115200 => "B115200",
            BaudRate::B230400 => "B230400",
        }
    }
}

impl Termios {
    /// Deterministic, human-readable listing of the whole record: the four
    /// flag words, the control characters and the two speeds, each on its
    /// own labelled line.
    pub fn debug_string(&self) -> (r: String)
        requires
            valid_code(self@.ispeed),
            valid_code(self@.ospeed),
        ensures
            r@ == spec_debug_termios(self@),
    {
        let mut s = String::from_str("iflag:\t");
        let part = self.iflag.debug_string();
        s.append(part.as_str());
        s.append("\noflag:\t");
        let part = self.oflag.debug_string();
        s.append(part.as_str());
        s.append("\ncflag:\t");
        let part = self.cflag.debug_string();
        s.append(part.as_str());
        s.append("\nlflag:\t");
        let part = self.lflag.debug_string();
        s.append(part.as_str());
        s.append("\ncc:\t");
        let part = self.cc.debug_string();
        s.append(part.as_str());
        s.append("\nispeed:\t");
        s.append(self.ispeed().label());
        s.append("\nospeed:\t");
        s.append(self.ospeed().label());
        s
    }
}

/// The record after the canonical "raw mode" transform: most input
/// translation off, output post-processing off, eight-bit characters
/// without parity, no canonical line processing, signals or echo, and
/// byte-at-a-time reads.
pub open spec fn spec_make_raw(v: TermiosView) -> TermiosView {
    TermiosView {
        iflag: v.iflag & !(raw::IGNBRK | raw::BRKINT | raw::PARMRK | raw::ISTRIP | raw::INLCR
            | raw::IGNCR | raw::ICRNL | raw::IXON),
        oflag: v.oflag & !raw::OPOST,
        cflag: (v.cflag & !(raw::CSIZE | raw::PARENB)) | raw::CS8,
        lflag: v.lflag & !(raw::ECHO | raw::ECHONL | raw::ICANON | raw::ISIG | raw::IEXTEN),
        cc: v.cc.update(raw::VMIN as int, 1).update(raw::VTIME as int, 0),
        ..v
    }
}

/// Raw mode clears canonical line processing and echo, keeps the
/// newline-translation output flag as it was, selects eight-bit
/// characters, and asks for byte-at-a-time reads.
pub proof fn lemma_make_raw_flags(v: TermiosView)
    requires
        v.cc.len() == raw::NCCS,
    ensures
        !local::has_flag(spec_make_raw(v), local::Flag::ICANON),
        !local::has_flag(spec_make_raw(v), local::Flag::ECHO),
        !local::has_flag(spec_make_raw(v), local::Flag::ISIG),
        !output::has_flag(spec_make_raw(v), output::Flag::OPOST),
        spec_make_raw(v).oflag & raw::ONLCR == v.oflag & raw::ONLCR,
        control::csize_of(spec_make_raw(v).cflag) == control::CSIZE::CS8,
        spec_make_raw(v).cc[raw::VMIN as int] == 1,
        spec_make_raw(v).cc[raw::VTIME as int] == 0,
{
    let lw = v.lflag;
    let ow = v.oflag;
    let cw = v.cflag;
    assert((lw & !(0o10u32 | 0o100 | 0o2 | 0o1 | 0o100000)) & 0o2 == 0) by (bit_vector);
    assert((lw & !(0o10u32 | 0o100 | 0o2 | 0o1 | 0o100000)) & 0o10 == 0) by (bit_vector);
    assert((lw & !(0o10u32 | 0o100 | 0o2 | 0o1 | 0o100000)) & 0o1 == 0) by (bit_vector);
    assert((ow & !0o1u32) & 0o1 == 0) by (bit_vector);
    assert((ow & !0o1u32) & 0o4 == ow & 0o4) by (bit_vector);
    assert(((cw & !(0o60u32 | 0o400)) | 0o60) & 0o60 == 0o60) by (bit_vector);
}

/// Standard baud rates
#[derive(Clone, Copy, Debug, PartialEq, Eq, Structural)]
pub enum BaudRate {
    B0,
    B50,
    B75,
    B110,
    B134,
    B150,
    B200,
    B300,
    B600,
    B1200,
    B1800,
    B2400,
    B4800,
    B9600,
    B19200,
    B38400,
    B57600,
    B115200,
    B230400,
}

/// The numeric speed code of a symbolic baud rate; every member has
/// exactly one.
pub open spec fn baud_code(r: BaudRate) -> raw::speed_t {
    match r {
        BaudRate::B0 => raw::B0,
        BaudRate::B50 => raw::B50,
        BaudRate::B75 => raw::B75,
        BaudRate::B110 => raw::B110,
        BaudRate::B134 => raw::B134,
        BaudRate::B150 => raw::B150,
        BaudRate::B200 => raw::B200,
        BaudRate::B300 => raw::B300,
        BaudRate::B600 => raw::B600,
        BaudRate::B1200 => raw::B1200,
        BaudRate::B1800 => raw::B1800,
        BaudRate::B2400 => raw::B2400,
        BaudRate::B4800 => raw::B4800,
        BaudRate::B9600 => raw::B9600,
        BaudRate::B19200 => raw::B19200,
        BaudRate::B38400 => raw::B38400,
        BaudRate::B57600 => raw::B57600,
        BaudRate::B115200 => raw::B115200,
        BaudRate::B230400 => raw::B230400,
    }
}

/// Whether a numeric code names a supported baud rate.
pub open spec fn valid_code(code: raw::speed_t) -> bool {
    ||| code == raw::B0
    ||| code == raw::B50
    ||| code == raw::B75
    ||| code == raw::B110
    ||| code == raw::B134
    ||| code == raw::B150
    ||| code == raw::B200
    ||| code == raw::B300
    ||| code == raw::B600
    ||| code == raw::B1200
    ||| code == raw::B1800
    ||| code == raw::B2400
    ||| code == raw::B4800
    ||| code == raw::B9600
    ||| code == raw::B19200
    ||| code == raw::B38400
    ||| code == raw::B57600
    ||| code == raw::B115200
    ||| code == raw::B230400
}

/// The symbolic baud rate of a supported numeric code.
pub open spec fn baud_of(code: raw::speed_t) -> BaudRate {
    if code == raw::B50 {
        BaudRate::B50
    } else if code == raw::B75 {
        BaudRate::B75
    } else if code == raw::B110 {
        BaudRate::B110
    } else if code == raw::B134 {
        BaudRate::B134
    } else if code == raw::B150 {
        BaudRate::B150
    } else if code == raw::B200 {
        BaudRate::B200
    } else if code == raw::B300 {
        BaudRate::B300
    } else if code == raw::B600 {
        BaudRate::B600
    } else if code == raw::B1200 {
        BaudRate::B1200
    } else if code == raw::B1800 {
        BaudRate::B1800
    } else if code == raw::B2400 {
        BaudRate::B2400
    } else if code == raw::B4800 {
        BaudRate::B4800
    } else if code == raw::B9600 {
        BaudRate::B9600
    } else if code == raw::B19200 {
        BaudRate::B19200
    } else if code == raw::B38400 {
        BaudRate::B38400
    } else if code == raw::B57600 {
        BaudRate::B57600
    } else if code == raw::B115200 {
        BaudRate::B115200
    } else if code == raw::B230400 {
        BaudRate::B230400
    } else {
        BaudRate::B0
    }
}

impl BaudRate {
    /// The symbolic rate of a supported numeric code. An unrecognized code
    /// is a binding/platform mismatch, not a normal error, and is ruled out
    /// by the caller.
    pub fn from_raw(speed: raw::tcflag_t) -> (r: BaudRate)
        requires
            valid_code(speed),
        ensures
            r == baud_of(speed),
    {
        if speed == raw::B50 {
            BaudRate::B50
        } else if speed == raw::B75 {
            BaudRate::B75
        } else if speed == raw::B110 {
            BaudRate::B110
        } else if speed == raw::B134 {
            BaudRate::B134
        } else if speed == raw::B150 {
            BaudRate::B150
        } else if speed == raw::B200 {
            BaudRate::B200
        } else if speed == raw::B300 {
            BaudRate::B300
        } else if speed == raw::B600 {
            BaudRate::B600
        } else if speed == raw::B1200 {
            BaudRate::B1200
        } else if speed == raw::B1800 {
            BaudRate::B1800
        } else if speed == raw::B2400 {
            BaudRate::B2400
        } else if speed == raw::B4800 {
            BaudRate::B4800
        } else if speed == raw::B9600 {
            BaudRate::B9600
        } else if speed == raw::B19200 {
            BaudRate::B19200
        } else if speed == raw::B38400 {
            BaudRate::B38400
        } else if speed == raw::B57600 {
            BaudRate::B57600
        } else if speed == raw::B115200 {
            BaudRate::B115200
        } else if speed == raw::B230400 {
            BaudRate::B230400
        } else {
            BaudRate::B0
        }
    }

    /// The numeric speed code of this rate; total, with no failure path.
    pub fn to_raw(&self) -> (r: raw::speed_t)
        ensures
            r == baud_code(*self),
    {
        match *self {
            BaudRate::B0 => raw::B0,
            BaudRate::B50 => raw::B50,
            BaudRate::B75 => raw::B75,
            BaudRate::B110 => raw::B110,
            BaudRate::B134 => raw::B134,
            BaudRate::B150 => raw::B150,
            BaudRate::B200 => raw::B200,
            BaudRate::B300 => raw::B300,
            BaudRate::B600 => raw::B600,
            BaudRate::B1200 => raw::B1200,
            BaudRate::B1800 => raw::B1800,
            BaudRate::B2400 => raw::B2400,
            BaudRate::B4800 => raw::B4800,
            BaudRate::B9600 => raw::B9600,
            BaudRate::B19200 => raw::B19200,
            BaudRate::B38400 => raw::B38400,
            BaudRate::B57600 => raw::B57600,
            BaudRate::B115200 => raw::B115200,
            BaudRate::B230400 => raw::B230400,
        }
    }
}

/// Every supported numeric code decodes to the symbolic rate that encodes
/// back to it.
pub proof fn lemma_baud_from_then_to(code: raw::speed_t)
    requires
        valid_code(code),
    ensures
        baud_code(baud_of(code)) == code,
{
}

/// Every symbolic rate encodes to a supported code that decodes back to it.
pub proof fn lemma_baud_to_then_from(r: BaudRate)
    ensures
        valid_code(baud_code(r)),
        baud_of(baud_code(r)) == r,
{
}

/// When to update the underlying `raw::Termios` structure
#[derive(Clone, Copy, Debug, PartialEq, Eq, Structural)]
pub enum When {
    /// Make change immediate
    Now,
    /// Drain output, then change
    AfterDrain,
    /// Drain output, flush input, then change
    AfterFlush,
}

/// The numeric timing-policy code of a symbolic policy.
pub open spec fn when_code(w: When) -> i32 {
    match w {
        When::Now => raw::TCSANOW,
        When::AfterDrain => raw::TCSADRAIN,
        When::AfterFlush => raw::TCSAFLUSH,
    }
}

impl When {
    /// The numeric code handed to the set-attributes syscall.
    pub fn to_raw(&self) -> (r: i32)
        ensures
            r == when_code(*self),
    {
        match *self {
            When::Now => raw::TCSANOW,
            When::AfterDrain => raw::TCSADRAIN,
            When::AfterFlush => raw::TCSAFLUSH,
        }
    }
}

} // verus!
