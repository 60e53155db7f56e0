//! Software input processing

use vstd::prelude::*;
use vstd::string::StringExecFns;

use crate::masks;
use crate::raw;
use crate::raw::tcflag_t;
use crate::traits::{Clear, Contains, SetFlag};
use crate::Termios;
use crate::TermiosView;

verus! {

/// Input flags
#[derive(Clone, Copy, PartialEq, Eq, Structural)]
pub struct Flags(pub tcflag_t);

impl View for Flags {
    type V = tcflag_t;

    open spec fn view(&self) -> tcflag_t {
        self.0
    }
}

/// Standard input flags
#[derive(Clone, Copy, Debug, PartialEq, Eq, Structural)]
pub enum Flag {
    /// Map BREAK to SIGINTR
    BRKINT,
    /// Map CR to NL (ala CRMOD)
    ICRNL,
    /// Ignore BREAK condition
    IGNBRK,
    /// Ignore CR
    IGNCR,
    /// Ignore (discard) parity errors
    IGNPAR,
    /// Ring bell on input queue full
    IMAXBEL,
    /// Map NL into CR
    INLCR,
    /// Enable checking of parity errors
    INPCK,
    /// Strip 8th bit off chars
    ISTRIP,
    /// Any char will restart after stop
    IXANY,
    /// Enable input control flow
    IXOFF,
    /// Enable output flow control
    IXON,
    /// Mark parity and framing errors
    PARMRK,
}

/// The bit mask of a named input flag.
pub open spec fn flag_mask(f: Flag) -> tcflag_t {
    match f {
        Flag::BRKINT => raw::BRKINT,
        Flag::ICRNL => raw::ICRNL,
        Flag::IGNBRK => raw::IGNBRK,
        Flag::IGNCR => raw::IGNCR,
        Flag::IGNPAR => raw::IGNPAR,
        Flag::IMAXBEL => raw::IMAXBEL,
        Flag::INLCR => raw::INLCR,
        Flag::INPCK => raw::INPCK,
        Flag::ISTRIP => raw::ISTRIP,
        Flag::IXANY => raw::IXANY,
        Flag::IXOFF => raw::IXOFF,
        Flag::IXON => raw::IXON,
        Flag::PARMRK => raw::PARMRK,
    }
}

/// The record with an input flag turned on.
pub open spec fn set_flag(v: TermiosView, f: Flag) -> TermiosView {
    TermiosView { iflag: v.iflag | flag_mask(f), ..v }
}

/// The record with an input flag turned off.
pub open spec fn clear_flag(v: TermiosView, f: Flag) -> TermiosView {
    TermiosView { iflag: v.iflag & !flag_mask(f), ..v }
}

/// Whether every bit of an input flag is on.
pub open spec fn has_flag(v: TermiosView, f: Flag) -> bool {
    v.iflag & flag_mask(f) == flag_mask(f)
}

/// The printed name of a named input flag.
pub open spec fn flag_label(f: Flag) -> Seq<char> {
    match f {
        Flag::BRKINT => "BRKINT"@,
        Flag::ICRNL => "ICRNL"@,
        Flag::IGNBRK => "IGNBRK"@,
        Flag::IGNCR => "IGNCR"@,
        Flag::IGNPAR => "IGNPAR"@,
        Flag::IMAXBEL => "IMAXBEL"@,
        Flag::INLCR => "INLCR"@,
        Flag::INPCK => "INPCK"@,
        Flag::ISTRIP => "ISTRIP"@,
        Flag::IXANY => "IXANY"@,
        Flag::IXOFF => "IXOFF"@,
        Flag::IXON => "IXON"@,
        Flag::PARMRK => "PARMRK"@,
    }
}

/// The canonical enumeration order in which the debug listing walks the
/// named input flags.
pub open spec fn nth_flag(i: int) -> Flag {
    if i == 0 {
        Flag::BRKINT
    } else if i == 1 {
        Flag::ICRNL
    } else if i == 2 {
        Flag::IGNBRK
    } else if i == 3 {
        Flag::IGNCR
    } else if i == 4 {
        Flag::IGNPAR
    } else if i == 5 {
        Flag::IMAXBEL
    } else if i == 6 {
        Flag::INLCR
    } else if i == 7 {
        Flag::INPCK
    } else if i == 8 {
        Flag::ISTRIP
    } else if i == 9 {
        Flag::IXANY
    } else if i == 10 {
        Flag::IXOFF
    } else if i == 11 {
        Flag::IXON
    } else {
        Flag::PARMRK
    }
}

/// The listing of the set input flags from position `i` on; `first` says
/// whether nothing has been printed yet, so no separator is due.
pub open spec fn render_from(w: tcflag_t, i: int, first: bool) -> Seq<char>
    decreases 13 - i,
{
    if i < 0 || i >= 13 {
        Seq::empty()
    } else {
        let f = nth_flag(i);
        let m = flag_mask(f);
        if w & m == m {
            (if first {
                flag_label(f)
            } else {
                " | "@ + flag_label(f)
            }) + render_from(w, i + 1, false)
        } else {
            render_from(w, i + 1, first)
        }
    }
}

/// The canonical debug listing of an input word: every currently-set named
/// flag, in enumeration order, joined by a separator.
pub open spec fn spec_debug(w: tcflag_t) -> Seq<char> {
    render_from(w, 0, true)
}

impl Flags {
    /// Deterministic, human-readable listing of every currently-set named
    /// flag, in the canonical enumeration order.
    pub fn debug_string(&self) -> (r: String)
        ensures
            r@ == spec_debug(self@),
    {
        let w = self.0;
        let mut s = String::new();
        let mut first: bool = true;
        let mut i: usize = 0;
        proof {
            assert(Seq::<char>::empty() + render_from(w, 0, true) =~= render_from(w, 0, true));
        }
        while i < 13
            invariant
                i <= 13,
                spec_debug(w) == s@ + render_from(w, i as int, first),
            decreases 13 - i,
        {
            let f = nth_flag_ex(i);
            let m = f.to_raw();
            if w & m == m {
                let ghost s0 = s@;
                let ghost rest = render_from(w, i as int + 1, false);
                if !first {
                    s.append(" | ");
                }
                s.append(f.label());
                proof {
                    if first {
                        assert(s0 + (flag_label(f) + rest) =~= (s0 + flag_label(f)) + rest);
                    } else {
                        assert(s0 + ((" | "@ + flag_label(f)) + rest) =~= ((s0 + " | "@)
                            + flag_label(f)) + rest);
                    }
                }
                first = false;
            }
            i = i + 1;
        }
        proof {
            assert(s@ + render_from(w, 13, first) =~= s@);
        }
        s
    }
}

/// The canonical enumeration order, as an executable lookup.
fn nth_flag_ex(i: usize) -> (f: Flag)
    requires
        i < 13,
    ensures
        f == nth_flag(i as int),
{
    if i == 0 {
        Flag::BRKINT
    } else if i == 1 {
        Flag::ICRNL
    } else if i == 2 {
        Flag::IGNBRK
    } else if i == 3 {
        Flag::IGNCR
    } else if i == 4 {
        Flag::IGNPAR
    } else if i == 5 {
        Flag::IMAXBEL
    } else if i == 6 {
        Flag::INLCR
    } else if i == 7 {
        Flag::INPCK
    } else if i == 8 {
        Flag::ISTRIP
    } else if i == 9 {
        Flag::IXANY
    } else if i == 10 {
        Flag::IXOFF
    } else if i == 11 {
        Flag::IXON
    } else {
        Flag::PARMRK
    }
}

impl Flag {
    /// The printed name of this flag.
    pub fn label(&self) -> (r: &'static str)
        ensures
            r@ == flag_label(*self),
    {
        match *self {
            Flag::BRKINT => "BRKINT",
            Flag::ICRNL => "ICRNL",
            Flag::IGNBRK => "IGNBRK",
            Flag::IGNCR => "IGNCR",
            Flag::IGNPAR => "IGNPAR",
            Flag::IMAXBEL => "IMAXBEL",
            Flag::INLCR => "INLCR",
            Flag::INPCK => "INPCK",
            Flag::ISTRIP => "ISTRIP",
            Flag::IXANY => "IXANY",
            Flag::IXOFF => "IXOFF",
            Flag::IXON => "IXON",
            Flag::PARMRK => "PARMRK",
        }
    }

    /// The numeric mask of this flag in the input word.
    pub fn to_raw(&self) -> (r: tcflag_t)
        ensures
            r == flag_mask(*self),
    {
        match *self {
            Flag::BRKINT => raw::BRKINT,
            Flag::ICRNL => raw::ICRNL,
            Flag::IGNBRK => raw::IGNBRK,
            Flag::IGNCR => raw::IGNCR,
            Flag::IGNPAR => raw::IGNPAR,
            Flag::IMAXBEL => raw::IMAXBEL,
            Flag::INLCR => raw::INLCR,
            Flag::INPCK => raw::INPCK,
            Flag::ISTRIP => raw::ISTRIP,
            Flag::IXANY => raw::IXANY,
            Flag::IXOFF => raw::IXOFF,
            Flag::IXON => raw::IXON,
            Flag::PARMRK => raw::PARMRK,
        }
    }
}

impl Clear<Flag> for Termios {
    open spec fn spec_clear(v: TermiosView, f: Flag) -> TermiosView {
        clear_flag(v, f)
    }

    fn clear(&mut self, f: Flag) {
        self.iflag.0 = self.iflag.0 & !f.to_raw();
    }
}

impl Contains<Flag> for Termios {
    open spec fn spec_contains(v: TermiosView, f: Flag) -> bool {
        has_flag(v, f)
    }

    fn contains(&self, f: Flag) -> (r: bool) {
        let mask = f.to_raw();
        self.iflag.0 & mask == mask
    }
}

impl SetFlag<Flag> for Termios {
    open spec fn spec_set(v: TermiosView, f: Flag) -> TermiosView {
        set_flag(v, f)
    }

    fn set(&mut self, f: Flag) {
        self.iflag.0 = self.iflag.0 | f.to_raw();
    }
}

/// No input flag has an empty mask.
pub proof fn lemma_flag_mask_nonzero(f: Flag)
    ensures
        flag_mask(f) != 0,
{
}

/// After setting an input flag the record contains it.
pub proof fn lemma_set_then_contains(v: TermiosView, f: Flag)
    ensures
        has_flag(set_flag(v, f), f),
{
    masks::lemma_or_contains(v.iflag, flag_mask(f));
}

/// After clearing an input flag the record no longer contains it.
pub proof fn lemma_clear_then_not_contains(v: TermiosView, f: Flag)
    ensures
        !has_flag(clear_flag(v, f), f),
{
    masks::lemma_andnot_clears(v.iflag, flag_mask(f));
    lemma_flag_mask_nonzero(f);
}

/// Setting an input flag twice is the same as setting it once.
pub proof fn lemma_set_idempotent(v: TermiosView, f: Flag)
    ensures
        set_flag(set_flag(v, f), f) == set_flag(v, f),
{
    masks::lemma_or_idempotent(v.iflag, flag_mask(f));
    assert(set_flag(set_flag(v, f), f) =~= set_flag(v, f));
}

/// Clearing an input flag twice is the same as clearing it once.
pub proof fn lemma_clear_idempotent(v: TermiosView, f: Flag)
    ensures
        clear_flag(clear_flag(v, f), f) == clear_flag(v, f),
{
    masks::lemma_andnot_idempotent(v.iflag, flag_mask(f));
    assert(clear_flag(clear_flag(v, f), f) =~= clear_flag(v, f));
}

} // verus!
