//! Hardware control of terminal

use vstd::prelude::*;
use vstd::string::StringExecFns;

use crate::masks;
use crate::raw;
use crate::raw::{cc_t, tcflag_t, NCCS};
use crate::traits::{Clear, Contains, Get, GetFrom, SetFlag};
use crate::Termios;
use crate::TermiosView;

verus! {

/// Control flags
#[derive(Clone, Copy, PartialEq, Eq, Structural)]
pub struct Flags(pub tcflag_t);

impl View for Flags {
    type V = tcflag_t;

    open spec fn view(&self) -> tcflag_t {
        self.0
    }
}

/// Standard control flags
#[derive(Clone, Copy, Debug, PartialEq, Eq, Structural)]
pub enum Flag {
    /// Ignore modem status lines
    CLOCAL,
    /// Enable receiver
    CREAD,
    /// RTS/CTS full-duplex flow control
    CRTSCTS,
    /// Send 2 STOP bits
    CSTOPB,
    /// Hang up on last close
    HUPCL,
    /// Parity enable
    PARENB,
    /// Odd parity, else even
    PARODD,
}

/// The bit mask of a named control flag.
pub open spec fn flag_mask(f: Flag) -> tcflag_t {
    match f {
        Flag::CLOCAL => raw::CLOCAL,
        Flag::CREAD => raw::CREAD,
        Flag::CRTSCTS => raw::CRTSCTS,
        Flag::CSTOPB => raw::CSTOPB,
        Flag::HUPCL => raw::HUPCL,
        Flag::PARENB => raw::PARENB,
        Flag::PARODD => raw::PARODD,
    }
}

/// The record with a control flag turned on.
pub open spec fn set_flag(v: TermiosView, f: Flag) -> TermiosView {
    TermiosView { cflag: v.cflag | flag_mask(f), ..v }
}

/// The record with a control flag turned off.
pub open spec fn clear_flag(v: TermiosView, f: Flag) -> TermiosView {
    TermiosView { cflag: v.cflag & !flag_mask(f), ..v }
}

/// Whether every bit of a control flag is on.
pub open spec fn has_flag(v: TermiosView, f: Flag) -> bool {
    v.cflag & flag_mask(f) == flag_mask(f)
}

impl Flag {
    /// The numeric mask of this flag in the control word.
    pub fn to_raw(&self) -> (r: tcflag_t)
        ensures
            r == flag_mask(*self),
    {
        match *self {
            Flag::CLOCAL => raw::CLOCAL,
            Flag::CREAD => raw::CREAD,
            Flag::CRTSCTS => raw::CRTSCTS,
            Flag::CSTOPB => raw::CSTOPB,
            Flag::HUPCL => raw::HUPCL,
            Flag::PARENB => raw::PARENB,
            Flag::PARODD => raw::PARODD,
        }
    }
}

impl Clear<Flag> for Termios {
    open spec fn spec_clear(v: TermiosView, f: Flag) -> TermiosView {
        clear_flag(v, f)
    }

    fn clear(&mut self, f: Flag) {
        self.cflag.0 = self.cflag.0 & !f.to_raw();
    }
}

impl Contains<Flag> for Termios {
    open spec fn spec_contains(v: TermiosView, f: Flag) -> bool {
        has_flag(v, f)
    }

    fn contains(&self, f: Flag) -> (r: bool) {
        let mask = f.to_raw();
        self.cflag.0 & mask == mask
    }
}

impl SetFlag<Flag> for Termios {
    open spec fn spec_set(v: TermiosView, f: Flag) -> TermiosView {
        set_flag(v, f)
    }

    fn set(&mut self, f: Flag) {
        self.cflag.0 = self.cflag.0 | f.to_raw();
    }
}

/// Character size
#[derive(Clone, Copy, Debug, PartialEq, Eq, Structural)]
pub enum CSIZE {
    /// 5 bits (pseudo)
    CS5,
    /// 6 bits
    CS6,
    /// 7 bits
    CS7,
    /// 8 bits
    CS8,
}

/// The two-bit pattern of a character size inside the control word.
pub open spec fn csize_bits(s: CSIZE) -> tcflag_t {
    match s {
        CSIZE::CS5 => raw::CS5,
        CSIZE::CS6 => raw::CS6,
        CSIZE::CS7 => raw::CS7,
        CSIZE::CS8 => raw::CS8,
    }
}

/// The character size currently selected by a control word.
pub open spec fn csize_of(w: tcflag_t) -> CSIZE {
    if w & raw::CSIZE == raw::CS5 {
        CSIZE::CS5
    } else if w & raw::CSIZE == raw::CS6 {
        CSIZE::CS6
    } else if w & raw::CSIZE == raw::CS7 {
        CSIZE::CS7
    } else {
        CSIZE::CS8
    }
}

/// The record with the character-size sub-field rewritten: the whole
/// two-bit region is cleared first, so no stale bits survive.
pub open spec fn set_csize(v: TermiosView, s: CSIZE) -> TermiosView {
    TermiosView { cflag: (v.cflag & !raw::CSIZE) | csize_bits(s), ..v }
}

impl CSIZE {
    /// The numeric pattern of this character size.
    pub fn to_raw(&self) -> (r: tcflag_t)
        ensures
            r == csize_bits(*self),
    {
        match *self {
            CSIZE::CS5 => raw::CS5,
            CSIZE::CS6 => raw::CS6,
            CSIZE::CS7 => raw::CS7,
            CSIZE::CS8 => raw::CS8,
        }
    }

    /// The character size named by an already-masked pattern.
    pub fn from_raw(csize: tcflag_t) -> (r: CSIZE)
        requires
            csize == raw::CS5 || csize == raw::CS6 || csize == raw::CS7 || csize == raw::CS8,
        ensures
            r == csize_of(csize),
            csize_bits(r) == csize,
    {
        proof {
            assert(0o00u32 & 0o60 == 0o00) by (bit_vector);
            assert(0o20u32 & 0o60 == 0o20) by (bit_vector);
            assert(0o40u32 & 0o60 == 0o40) by (bit_vector);
            assert(0o60u32 & 0o60 == 0o60) by (bit_vector);
        }
        if csize == raw::CS5 {
            CSIZE::CS5
        } else if csize == raw::CS6 {
            CSIZE::CS6
        } else if csize == raw::CS7 {
            CSIZE::CS7
        } else {
            CSIZE::CS8
        }
    }
}

impl Get for Termios {

}

impl GetFrom<Termios> for CSIZE {
    open spec fn spec_get_from(v: TermiosView) -> CSIZE {
        csize_of(v.cflag)
    }

    fn get_from(t: &Termios) -> (r: CSIZE) {
        let w = t.cflag.0;
        proof {
            assert(w & 0o60 == 0o00 || w & 0o60 == 0o20 || w & 0o60 == 0o40 || w & 0o60 == 0o60)
                by (bit_vector);
        }
        CSIZE::from_raw(w & raw::CSIZE)
    }
}

impl SetFlag<CSIZE> for Termios {
    open spec fn spec_set(v: TermiosView, s: CSIZE) -> TermiosView {
        set_csize(v, s)
    }

    fn set(&mut self, s: CSIZE) {
        self.cflag.0 = self.cflag.0 & !raw::CSIZE;
        self.cflag.0 = self.cflag.0 | s.to_raw();
    }
}

/// The printed name of a named control flag.
pub open spec fn flag_label(f: Flag) -> Seq<char> {
    match f {
        Flag::CLOCAL => "CLOCAL"@,
        Flag::CREAD => "CREAD"@,
        Flag::CRTSCTS => "CRTSCTS"@,
        Flag::CSTOPB => "CSTOPB"@,
        Flag::HUPCL => "HUPCL"@,
        Flag::PARENB => "PARENB"@,
        Flag::PARODD => "PARODD"@,
    }
}

/// The printed name of a character size.
pub open spec fn csize_label(s: CSIZE) -> Seq<char> {
    match s {
        CSIZE::CS5 => "CS5"@,
        CSIZE::CS6 => "CS6"@,
        CSIZE::CS7 => "CS7"@,
        CSIZE::CS8 => "CS8"@,
    }
}

/// The canonical enumeration order in which the debug listing walks the
/// named control flags.
pub open spec fn nth_flag(i: int) -> Flag {
    if i == 0 {
        Flag::CLOCAL
    } else if i == 1 {
        Flag::CREAD
    } else if i == 2 {
        Flag::CRTSCTS
    } else if i == 3 {
        Flag::CSTOPB
    } else if i == 4 {
        Flag::HUPCL
    } else if i == 5 {
        Flag::PARENB
    } else {
        Flag::PARODD
    }
}

/// The listing of the set control flags from position `i` on; the
/// character size always comes first, so every flag is preceded by the
/// separator.
pub open spec fn render_sep_from(w: tcflag_t, i: int) -> Seq<char>
    decreases 7 - i,
{
    if i < 0 || i >= 7 {
        Seq::empty()
    } else {
        let f = nth_flag(i);
        let m = flag_mask(f);
        if w & m == m {
            (" | "@ + flag_label(f)) + render_sep_from(w, i + 1)
        } else {
            render_sep_from(w, i + 1)
        }
    }
}

/// The canonical debug listing of a control word: the selected character
/// size first, then every currently-set named flag in enumeration order.
pub open spec fn spec_debug(w: tcflag_t) -> Seq<char> {
    csize_label(csize_of(w)) + render_sep_from(w, 0)
}

impl CSIZE {
    /// The printed name of this character size.
    pub fn label(&self) -> (r: &'static str)
        ensures
            r@ == csize_label(*self),
    {
        match *self {
            CSIZE::CS5 => "CS5",
            CSIZE::CS6 => "CS6",
            CSIZE::CS7 => "CS7",
            CSIZE::CS8 => "CS8",
        }
    }
}

impl Flags {
    /// Deterministic, human-readable listing of the selected character size
    /// followed by every currently-set named flag, in the canonical
    /// enumeration order.
    pub fn debug_string(&self) -> (r: String)
        ensures
            r@ == spec_debug(self@),
    {
        let w = self.0;
        proof {
            assert(w & 0o60 == 0o00 || w & 0o60 == 0o20 || w & 0o60 == 0o40 || w & 0o60 == 0o60)
                by (bit_vector);
            assert((w & 0o60u32) & 0o60 == w & 0o60) by (bit_vector);
        }
        let sz = CSIZE::from_raw(w & raw::CSIZE);
        let mut s = String::from_str(sz.label());
        let mut i: usize = 0;
        while i < 7
            invariant
                i <= 7,
                spec_debug(w) == s@ + render_sep_from(w, i as int),
            decreases 7 - i,
        {
            let f = nth_flag_ex(i);
            let m = f.to_raw();
            if w & m == m {
                let ghost s0 = s@;
                let ghost rest = render_sep_from(w, i as int + 1);
                s.append(" | ");
                s.append(f.label());
                proof {
                    assert(s0 + ((" | "@ + flag_label(f)) + rest) =~= ((s0 + " | "@)
                        + flag_label(f)) + rest);
                }
            }
            i = i + 1;
        }
        proof {
            assert(s@ + render_sep_from(w, 7) =~= s@);
        }
        s
    }
}

/// The canonical enumeration order, as an executable lookup.
fn nth_flag_ex(i: usize) -> (f: Flag)
    requires
        i < 7,
    ensures
        f == nth_flag(i as int),
{
    if i == 0 {
        Flag::CLOCAL
    } else if i == 1 {
        Flag::CREAD
    } else if i == 2 {
        Flag::CRTSCTS
    } else if i == 3 {
        Flag::CSTOPB
    } else if i == 4 {
        Flag::HUPCL
    } else if i == 5 {
        Flag::PARENB
    } else {
        Flag::PARODD
    }
}

impl Flag {
    /// The printed name of this flag.
    pub fn label(&self) -> (r: &'static str)
        ensures
            r@ == flag_label(*self),
    {
        match *self {
            Flag::CLOCAL => "CLOCAL",
            Flag::CREAD => "CREAD",
            Flag::CRTSCTS => "CRTSCTS",
            Flag::CSTOPB => "CSTOPB",
            Flag::HUPCL => "HUPCL",
            Flag::PARENB => "PARENB",
            Flag::PARODD => "PARODD",
        }
    }
}

/// Writing a character size and reading it back returns exactly that size.
pub proof fn lemma_set_csize_then_get(v: TermiosView, s: CSIZE)
    ensures
        csize_of(set_csize(v, s).cflag) == s,
{
    let w = v.cflag;
    match s {
        CSIZE::CS5 => {
            assert(((w & !0o60u32) | 0o00) & 0o60 == 0o00) by (bit_vector);
        },
        CSIZE::CS6 => {
            assert(((w & !0o60u32) | 0o20) & 0o60 == 0o20) by (bit_vector);
        },
        CSIZE::CS7 => {
            assert(((w & !0o60u32) | 0o40) & 0o60 == 0o40) by (bit_vector);
        },
        CSIZE::CS8 => {
            assert(((w & !0o60u32) | 0o60) & 0o60 == 0o60) by (bit_vector);
        },
    }
}

/// Writing a character size leaves every bit outside the two-bit region as
/// it was.
pub proof fn lemma_set_csize_preserves_rest(v: TermiosView, s: CSIZE)
    ensures
        set_csize(v, s).cflag & !raw::CSIZE == v.cflag & !raw::CSIZE,
        set_csize(v, s).iflag == v.iflag,
        set_csize(v, s).oflag == v.oflag,
        set_csize(v, s).lflag == v.lflag,
        set_csize(v, s).cc == v.cc,
{
    let w = v.cflag;
    let c = csize_bits(s);
    assert(c & 0o60 == c ==> ((w & !0o60u32) | c) & !0o60u32 == w & !0o60u32) by (bit_vector);
    match s {
        CSIZE::CS5 => {
            assert(0o00u32 & 0o60 == 0o00) by (bit_vector);
        },
        CSIZE::CS6 => {
            assert(0o20u32 & 0o60 == 0o20) by (bit_vector);
        },
        CSIZE::CS7 => {
            assert(0o40u32 & 0o60 == 0o40) by (bit_vector);
        },
        CSIZE::CS8 => {
            assert(0o60u32 & 0o60 == 0o60) by (bit_vector);
        },
    }
}

/// No named control flag overlaps the character-size region, so writing a
/// character size never changes whether a flag is contained.
pub proof fn lemma_set_csize_preserves_flags(v: TermiosView, s: CSIZE, f: Flag)
    ensures
        has_flag(set_csize(v, s), f) == has_flag(v, f),
{
    let w = v.cflag;
    let w2 = set_csize(v, s).cflag;
    let m = flag_mask(f);
    lemma_set_csize_preserves_rest(v, s);
    assert((0o4000u32 & 0o60 == 0) && (0o200u32 & 0o60 == 0) && (0o20000000000u32 & 0o60 == 0)
        && (0o100u32 & 0o60 == 0) && (0o2000u32 & 0o60 == 0) && (0o400u32 & 0o60 == 0)
        && (0o1000u32 & 0o60 == 0)) by (bit_vector);
    assert(m & 0o60u32 == 0);
    assert(m & 0o60u32 == 0 && w2 & !0o60u32 == w & !0o60u32 ==> (w2 & m) == (w & m))
        by (bit_vector);
}

/// No control flag has an empty mask.
pub proof fn lemma_flag_mask_nonzero(f: Flag)
    ensures
        flag_mask(f) != 0,
{
}

/// After setting a control flag the record contains it.
pub proof fn lemma_set_then_contains(v: TermiosView, f: Flag)
    ensures
        has_flag(set_flag(v, f), f),
{
    masks::lemma_or_contains(v.cflag, flag_mask(f));
}

/// After clearing a control flag the record no longer contains it.
pub proof fn lemma_clear_then_not_contains(v: TermiosView, f: Flag)
    ensures
        !has_flag(clear_flag(v, f), f),
{
    masks::lemma_andnot_clears(v.cflag, flag_mask(f));
    lemma_flag_mask_nonzero(f);
}

/// Setting a control flag twice is the same as setting it once.
pub proof fn lemma_set_idempotent(v: TermiosView, f: Flag)
    ensures
        set_flag(set_flag(v, f), f) == set_flag(v, f),
{
    masks::lemma_or_idempotent(v.cflag, flag_mask(f));
    assert(set_flag(set_flag(v, f), f) =~= set_flag(v, f));
}

/// Clearing a control flag twice is the same as clearing it once.
pub proof fn lemma_clear_idempotent(v: TermiosView, f: Flag)
    ensures
        clear_flag(clear_flag(v, f), f) == clear_flag(v, f),
{
    masks::lemma_andnot_idempotent(v.cflag, flag_mask(f));
    assert(clear_flag(clear_flag(v, f), f) =~= clear_flag(v, f));
}

/// Control chars
#[derive(Clone, Copy)]
pub struct Chars(pub [cc_t; 32]);

impl View for Chars {
    type V = Seq<u8>;

    open spec fn view(&self) -> Seq<u8> {
        self.0@
    }
}

/// Standard control chars
#[derive(Clone, Copy, Debug, PartialEq, Eq, Structural)]
pub enum Char {
    VDISCARD,
    VEOF,
    VEOL2,
    VEOL,
    VERASE,
    VINTR,
    VKILL,
    VLNEXT,
    VMIN,
    VQUIT,
    VREPRINT,
    VSTART,
    VSTOP,
    VSUSP,
    VTIME,
    VWERASE,
}

/// The slot of a special-character role in the control-character array.
pub open spec fn char_index(c: Char) -> int {
    match c {
        Char::VDISCARD => raw::VDISCARD as int,
        Char::VEOF => raw::VEOF as int,
        Char::VEOL => raw::VEOL as int,
        Char::VEOL2 => raw::VEOL2 as int,
        Char::VERASE => raw::VERASE as int,
        Char::VINTR => raw::VINTR as int,
        Char::VKILL => raw::VKILL as int,
        Char::VLNEXT => raw::VLNEXT as int,
        Char::VMIN => raw::VMIN as int,
        Char::VQUIT => raw::VQUIT as int,
        Char::VREPRINT => raw::VREPRINT as int,
        Char::VSTART => raw::VSTART as int,
        Char::VSTOP => raw::VSTOP as int,
        Char::VSUSP => raw::VSUSP as int,
        Char::VTIME => raw::VTIME as int,
        Char::VWERASE => raw::VWERASE as int,
    }
}

impl Char {
    /// The numeric index of this role in the control-character array.
    pub fn to_raw(&self) -> (r: usize)
        ensures
            r == char_index(*self),
            r < NCCS,
    {
        (match *self {
            Char::VDISCARD => raw::VDISCARD,
            Char::VEOF => raw::VEOF,
            Char::VEOL => raw::VEOL,
            Char::VEOL2 => raw::VEOL2,
            Char::VERASE => raw::VERASE,
            Char::VINTR => raw::VINTR,
            Char::VKILL => raw::VKILL,
            Char::VLNEXT => raw::VLNEXT,
            Char::VMIN => raw::VMIN,
            Char::VQUIT => raw::VQUIT,
            Char::VREPRINT => raw::VREPRINT,
            Char::VSTART => raw::VSTART,
            Char::VSTOP => raw::VSTOP,
            Char::VSUSP => raw::VSUSP,
            Char::VTIME => raw::VTIME,
            Char::VWERASE => raw::VWERASE,
        }) as usize
    }
}

impl Chars {
    /// The byte currently assigned to a role.
    pub fn get(&self, c: Char) -> (r: cc_t)
        ensures
            r == self@[char_index(c)],
    {
        let i = c.to_raw();
        self.0[i]
    }

    /// Assigns a byte to a role; no other slot changes.
    pub fn set(&mut self, c: Char, value: cc_t)
        ensures
            final(self)@ == old(self)@.update(char_index(c), value),
    {
        let i = c.to_raw();
        self.0[i] = value;
    }
}

/// Every role's slot lies inside the fixed array bound.
pub proof fn lemma_char_index_in_range(c: Char)
    ensures
        0 <= char_index(c) < NCCS,
{
}

/// Distinct roles have distinct slots: no aliasing inside the table.
pub proof fn lemma_char_index_injective(c: Char, d: Char)
    requires
        c != d,
    ensures
        char_index(c) != char_index(d),
{
}

/// Writing a byte to a role and reading it back returns the same byte.
pub proof fn lemma_set_char_then_get(cc: Seq<u8>, c: Char, value: u8)
    requires
        cc.len() == NCCS,
    ensures
        cc.update(char_index(c), value)[char_index(c)] == value,
{
}

/// Writing one role's byte never changes another role's stored value.
pub proof fn lemma_set_char_preserves_others(cc: Seq<u8>, c: Char, d: Char, value: u8)
    requires
        cc.len() == NCCS,
        c != d,
    ensures
        cc.update(char_index(c), value)[char_index(d)] == cc[char_index(d)],
{
    lemma_char_index_injective(c, d);
}

/// The printed name of a special-character role.
pub open spec fn char_label(c: Char) -> Seq<char> {
    match c {
        Char::VDISCARD => "VDISCARD"@,
        Char::VEOF => "VEOF"@,
        Char::VEOL2 => "VEOL2"@,
        Char::VEOL => "VEOL"@,
        Char::VERASE => "VERASE"@,
        Char::VINTR => "VINTR"@,
        Char::VKILL => "VKILL"@,
        Char::VLNEXT => "VLNEXT"@,
        Char::VMIN => "VMIN"@,
        Char::VQUIT => "VQUIT"@,
        Char::VREPRINT => "VREPRINT"@,
        Char::VSTART => "VSTART"@,
        Char::VSTOP => "VSTOP"@,
        Char::VSUSP => "VSUSP"@,
        Char::VTIME => "VTIME"@,
        Char::VWERASE => "VWERASE"@,
    }
}

/// The canonical role order in which the debug listing walks the table.
pub open spec fn nth_char(i: int) -> Char {
    if i == 0 {
        Char::VDISCARD
    } else if i == 1 {
        Char::VEOF
    } else if i == 2 {
        Char::VEOL2
    } else if i == 3 {
        Char::VEOL
    } else if i == 4 {
        Char::VERASE
    } else if i == 5 {
        Char::VINTR
    } else if i == 6 {
        Char::VKILL
    } else if i == 7 {
        Char::VLNEXT
    } else if i == 8 {
        Char::VMIN
    } else if i == 9 {
        Char::VQUIT
    } else if i == 10 {
        Char::VREPRINT
    } else if i == 11 {
        Char::VSTART
    } else if i == 12 {
        Char::VSTOP
    } else if i == 13 {
        Char::VSUSP
    } else if i == 14 {
        Char::VTIME
    } else {
        Char::VWERASE
    }
}

/// A decimal digit as a character.
pub open spec fn dec_digit(d: int) -> char {
    if d == 0 {
        '0'
    } else if d == 1 {
        '1'
    } else if d == 2 {
        '2'
    } else if d == 3 {
        '3'
    } else if d == 4 {
        '4'
    } else if d == 5 {
        '5'
    } else if d == 6 {
        '6'
    } else if d == 7 {
        '7'
    } else if d == 8 {
        '8'
    } else {
        '9'
    }
}

/// The decimal rendering of a byte, without leading zeros.
pub open spec fn dec_u8(v: u8) -> Seq<char> {
    if v < 10 {
        seq![dec_digit(v as int)]
    } else if v < 100 {
        seq![dec_digit(v as int / 10), dec_digit(v as int % 10)]
    } else {
        seq![
            dec_digit(v as int / 100),
            dec_digit((v as int / 10) % 10),
            dec_digit(v as int % 10),
        ]
    }
}

/// The listing of the table from role position `i` on: every role with its
/// current byte value, joined by a separator.
pub open spec fn render_chars_from(cc: Seq<u8>, i: int) -> Seq<char>
    decreases 16 - i,
{
    if i < 0 || i >= 16 {
        Seq::empty()
    } else {
        let c = nth_char(i);
        let entry = char_label(c) + ": "@ + dec_u8(cc[char_index(c)]);
        (if i == 0 {
            entry
        } else {
            ", "@ + entry
        }) + render_chars_from(cc, i + 1)
    }
}

/// The canonical debug listing of the control-character table: every role
/// with its current byte value, in the canonical role order.
pub open spec fn spec_debug_chars(cc: Seq<u8>) -> Seq<char> {
    render_chars_from(cc, 0)
}

/// A decimal digit as a one-character string.
fn digit_str(d: u8) -> (r: &'static str)
    requires
        d < 10,
    ensures
        r@ == seq![dec_digit(d as int)],
{
    let r: &'static str = match d {
        0 => "0",
        1 => "1",
        2 => "2",
        3 => "3",
        4 => "4",
        5 => "5",
        6 => "6",
        7 => "7",
        8 => "8",
        _ => "9",
    };
    proof {
        reveal_strlit("0");
        reveal_strlit("1");
        reveal_strlit("2");
        reveal_strlit("3");
        reveal_strlit("4");
        reveal_strlit("5");
        reveal_strlit("6");
        reveal_strlit("7");
        reveal_strlit("8");
        reveal_strlit("9");
        assert(("0")@ =~= seq!['0']);
        assert(("1")@ =~= seq!['1']);
        assert(("2")@ =~= seq!['2']);
        assert(("3")@ =~= seq!['3']);
        assert(("4")@ =~= seq!['4']);
        assert(("5")@ =~= seq!['5']);
        assert(("6")@ =~= seq!['6']);
        assert(("7")@ =~= seq!['7']);
        assert(("8")@ =~= seq!['8']);
        assert(("9")@ =~= seq!['9']);
    }
    r
}

/// Appends the decimal rendering of a byte.
fn push_dec_u8(s: &mut String, v: u8)
    ensures
        final(s)@ == old(s)@ + dec_u8(v),
{
    let ghost s0 = old(s)@;
    if v < 10 {
        s.append(digit_str(v));
        proof {
            assert(s0 + seq![dec_digit(v as int)] =~= s0 + dec_u8(v));
        }
    } else if v < 100 {
        s.append(digit_str(v / 10));
        s.append(digit_str(v % 10));
        proof {
            assert((s0 + seq![dec_digit(v as int / 10)]) + seq![dec_digit(v as int % 10)] =~= s0
                + dec_u8(v));
        }
    } else {
        s.append(digit_str(v / 100));
        s.append(digit_str((v / 10) % 10));
        s.append(digit_str(v % 10));
        proof {
            assert(((s0 + seq![dec_digit(v as int / 100)]) + seq![
                dec_digit((v as int / 10) % 10),
            ]) + seq![dec_digit(v as int % 10)] =~= s0 + dec_u8(v));
        }
    }
}

impl Char {
    /// The printed name of this role.
    pub fn label(&self) -> (r: &'static str)
        ensures
            r@ == char_label(*self),
    {
        match *self {
            Char::VDISCARD => "VDISCARD",
            Char::VEOF => "VEOF",
            Char::VEOL2 => "VEOL2",
            Char::VEOL => "VEOL",
            Char::VERASE => "VERASE",
            Char::VINTR => "VINTR",
            Char::VKILL => "VKILL",
            Char::VLNEXT => "VLNEXT",
            Char::VMIN => "VMIN",
            Char::VQUIT => "VQUIT",
            Char::VREPRINT => "VREPRINT",
            Char::VSTART => "VSTART",
            Char::VSTOP => "VSTOP",
            Char::VSUSP => "VSUSP",
            Char::VTIME => "VTIME",
            Char::VWERASE => "VWERASE",
        }
    }
}

/// The canonical role order, as an executable lookup.
fn nth_char_ex(i: usize) -> (c: Char)
    requires
        i < 16,
    ensures
        c == nth_char(i as int),
{
    if i == 0 {
        Char::VDISCARD
    } else if i == 1 {
        Char::VEOF
    } else if i == 2 {
        Char::VEOL2
    } else if i == 3 {
        Char::VEOL
    } else if i == 4 {
        Char::VERASE
    } else if i == 5 {
        Char::VINTR
    } else if i == 6 {
        Char::VKILL
    } else if i == 7 {
        Char::VLNEXT
    } else if i == 8 {
        Char::VMIN
    } else if i == 9 {
        Char::VQUIT
    } else if i == 10 {
        Char::VREPRINT
    } else if i == 11 {
        Char::VSTART
    } else if i == 12 {
        Char::VSTOP
    } else if i == 13 {
        Char::VSUSP
    } else if i == 14 {
        Char::VTIME
    } else {
        Char::VWERASE
    }
}

impl Chars {
    /// Deterministic, human-readable listing of every role with its current
    /// byte value, in the canonical role order.
    pub fn debug_string(&self) -> (r: String)
        ensures
            r@ == spec_debug_chars(self@),
    {
        let mut s = String::new();
        let mut i: usize = 0;
        proof {
            assert(Seq::<char>::empty() + render_chars_from(self@, 0) =~= render_chars_from(
                self@, 0));
        }
        while i < 16
            invariant
                i <= 16,
                spec_debug_chars(self@) == s@ + render_chars_from(self@, i as int),
            decreases 16 - i,
        {
            let c = nth_char_ex(i);
            let ghost s0 = s@;
            let ghost entry = char_label(c) + ": "@ + dec_u8(self@[char_index(c)]);
            let ghost rest = render_chars_from(self@, i as int + 1);
            if i != 0 {
                s.append(", ");
            }
            s.append(c.label());
            s.append(": ");
            let v = self.get(c);
            push_dec_u8(&mut s, v);
            proof {
                if i == 0 {
                    assert(((s0 + char_label(c)) + ": "@) + dec_u8(self@[char_index(c)]) + rest
                        =~= s0 + (entry + rest));
                } else {
                    assert((((s0 + ", "@) + char_label(c)) + ": "@) + dec_u8(
                        self@[char_index(c)]) + rest =~= s0 + ((", "@ + entry) + rest));
                }
            }
            i = i + 1;
        }
        proof {
            assert(s@ + render_chars_from(self@, 16) =~= s@);
        }
        s
    }
}

} // verus!
