//! Line-discipline local state

use vstd::prelude::*;
use vstd::string::StringExecFns;

use crate::masks;
use crate::raw;
use crate::raw::tcflag_t;
use crate::traits::{Clear, Contains, SetFlag};
use crate::Termios;
use crate::TermiosView;

verus! {

/// Local flags
#[derive(Clone, Copy, PartialEq, Eq, Structural)]
pub struct Flags(pub tcflag_t);

impl View for Flags {
    type V = tcflag_t;

    open spec fn view(&self) -> tcflag_t {
        self.0
    }
}

/// Standard local flags
#[derive(Clone, Copy, Debug, PartialEq, Eq, Structural)]
pub enum Flag {
    /// Echo control chars as `^(Char)`
    ECHOCTL,
    /// Visually erase chars
    ECHOE,
    /// Visual erase for line kill
    ECHOKE,
    /// Echo NL after line kill
    ECHOK,
    /// Echo NL even if ECHO is off
    ECHONL,
    /// Visual erase mode for hardcopy
    ECHOPRT,
    /// Enable echoing
    ECHO,
    /// External processing
    EXTPROC,
    /// Output being flushed (state)
    FLUSHO,
    /// Canonalize input lines
    ICANON,
    /// Enable DISCARD and LNEXT
    IEXTEN,
    /// Enable signals INTR, QUIT, [D]SUSP
    ISIG,
    /// Don't flush after interrupt
    NOFLSH,
    /// Retype pending input (state)
    PENDIN,
    /// Stop background jobs from output
    TOSTOP,
}

/// The bit mask of a named local flag.
pub open spec fn flag_mask(f: Flag) -> tcflag_t {
    match f {
        Flag::ECHOCTL => raw::ECHOCTL,
        Flag::ECHOE => raw::ECHOE,
        Flag::ECHOKE => raw::ECHOKE,
        Flag::ECHOK => raw::ECHOK,
        Flag::ECHONL => raw::ECHONL,
        Flag::ECHOPRT => raw::ECHOPRT,
        Flag::ECHO => raw::ECHO,
        Flag::EXTPROC => raw::EXTPROC,
        Flag::FLUSHO => raw::FLUSHO,
        Flag::ICANON => raw::ICANON,
        Flag::IEXTEN => raw::IEXTEN,
        Flag::ISIG => raw::ISIG,
        Flag::NOFLSH => raw::NOFLSH,
        Flag::PENDIN => raw::PENDIN,
        Flag::TOSTOP => raw::TOSTOP,
    }
}

/// The record with a local flag turned on.
pub open spec fn set_flag(v: TermiosView, f: Flag) -> TermiosView {
    TermiosView { lflag: v.lflag | flag_mask(f), ..v }
}

/// The record with a local flag turned off.
pub open spec fn clear_flag(v: TermiosView, f: Flag) -> TermiosView {
    TermiosView { lflag: v.lflag & !flag_mask(f), ..v }
}

/// Whether every bit of a local flag is on.
pub open spec fn has_flag(v: TermiosView, f: Flag) -> bool {
    v.lflag & flag_mask(f) == flag_mask(f)
}

/// The printed name of a named local flag.
pub open spec fn flag_label(f: Flag) -> Seq<char> {
    match f {
        Flag::ECHOCTL => "ECHOCTL"@,
        Flag::ECHOE => "ECHOE"@,
        Flag::ECHOKE => "ECHOKE"@,
        Flag::ECHOK => "ECHOK"@,
        Flag::ECHONL => "ECHONL"@,
        Flag::ECHOPRT => "ECHOPRT"@,
        Flag::ECHO => "ECHO"@,
        Flag::EXTPROC => "EXTPROC"@,
        Flag::FLUSHO => "FLUSHO"@,
        Flag::ICANON => "ICANON"@,
        Flag::IEXTEN => "IEXTEN"@,
        Flag::ISIG => "ISIG"@,
        Flag::NOFLSH => "NOFLSH"@,
        Flag::PENDIN => "PENDIN"@,
        Flag::TOSTOP => "TOSTOP"@,
    }
}

/// The canonical enumeration order in which the debug listing walks the
/// named local flags.
pub open spec fn nth_flag(i: int) -> Flag {
    if i == 0 {
        Flag::ECHOCTL
    } else if i == 1 {
        Flag::ECHOE
    } else if i == 2 {
        Flag::ECHOKE
    } else if i == 3 {
        Flag::ECHOK
    } else if i == 4 {
        Flag::ECHONL
    } else if i == 5 {
        Flag::ECHOPRT
    } else if i == 6 {
        Flag::ECHO
    } else if i == 7 {
        Flag::EXTPROC
    } else if i == 8 {
        Flag::FLUSHO
    } else if i == 9 {
        Flag::ICANON
    } else if i == 10 {
        Flag::IEXTEN
    } else if i == 11 {
        Flag::ISIG
    } else if i == 12 {
        Flag::NOFLSH
    } else if i == 13 {
        Flag::PENDIN
    } else {
        Flag::TOSTOP
    }
}

/// The listing of the set local flags from position `i` on; `first` says
/// whether nothing has been printed yet, so no separator is due.
pub open spec fn render_from(w: tcflag_t, i: int, first: bool) -> Seq<char>
    decreases 15 - i,
{
    if i < 0 || i >= 15 {
        Seq::empty()
    } else {
        let f = nth_flag(i);
        let m = flag_mask(f);
        if w & m == m {
            (if first {
                flag_label(f)
            } else {
                " | "@ + flag_label(f)
            }) + render_from(w, i + 1, false)
        } else {
            render_from(w, i + 1, first)
        }
    }
}

/// The canonical debug listing of a local word: every currently-set named
/// flag, in enumeration order, joined by a separator.
pub open spec fn spec_debug(w: tcflag_t) -> Seq<char> {
    render_from(w, 0, true)
}

impl Flags {
    /// Deterministic, human-readable listing of every currently-set named
    /// flag, in the canonical enumeration order.
    pub fn debug_string(&self) -> (r: String)
        ensures
            r@ == spec_debug(self@),
    {
        let w = self.0;
        let mut s = String::new();
        let mut first: bool = true;
        let mut i: usize = 0;
        proof {
            assert(Seq::<char>::empty() + render_from(w, 0, true) =~= render_from(w, 0, true));
        }
        while i < 15
            invariant
                i <= 15,
                spec_debug(w) == s@ + render_from(w, i as int, first),
            decreases 15 - i,
        {
            let f = nth_flag_ex(i);
            let m = f.to_raw();
            if w & m == m {
                let ghost s0 = s@;
                let ghost rest = render_from(w, i as int + 1, false);
                if !first {
                    s.append(" | ");
                }
                s.append(f.label());
                proof {
                    if first {
                        assert(s0 + (flag_label(f) + rest) =~= (s0 + flag_label(f)) + rest);
                    } else {
                        assert(s0 + ((" | "@ + flag_label(f)) + rest) =~= ((s0 + " | "@)
                            + flag_label(f)) + rest);
                    }
                }
                first = false;
            }
            i = i + 1;
        }
        proof {
            assert(s@ + render_from(w, 15, first) =~= s@);
        }
        s
    }
}

/// The canonical enumeration order, as an executable lookup.
fn nth_flag_ex(i: usize) -> (f: Flag)
    requires
        i < 15,
    ensures
        f == nth_flag(i as int),
{
    if i == 0 {
        Flag::ECHOCTL
    } else if i == 1 {
        Flag::ECHOE
    } else if i == 2 {
        Flag::ECHOKE
    } else if i == 3 {
        Flag::ECHOK
    } else if i == 4 {
        Flag::ECHONL
    } else if i == 5 {
        Flag::ECHOPRT
    } else if i == 6 {
        Flag::ECHO
    } else if i == 7 {
        Flag::EXTPROC
    } else if i == 8 {
        Flag::FLUSHO
    } else if i == 9 {
        Flag::ICANON
    } else if i == 10 {
        Flag::IEXTEN
    } else if i == 11 {
        Flag::ISIG
    } else if i == 12 {
        Flag::NOFLSH
    } else if i == 13 {
        Flag::PENDIN
    } else {
        Flag::TOSTOP
    }
}

impl Flag {
    /// The printed name of this flag.
    pub fn label(&self) -> (r: &'static str)
        ensures
            r@ == flag_label(*self),
    {
        match *self {
            Flag::ECHOCTL => "ECHOCTL",
            Flag::ECHOE => "ECHOE",
            Flag::ECHOKE => "ECHOKE",
            Flag::ECHOK => "ECHOK",
            Flag::ECHONL => "ECHONL",
            Flag::ECHOPRT => "ECHOPRT",
            Flag::ECHO => "ECHO",
            Flag::EXTPROC => "EXTPROC",
            Flag::FLUSHO => "FLUSHO",
            Flag::ICANON => "ICANON",
            Flag::IEXTEN => "IEXTEN",
            Flag::ISIG => "ISIG",
            Flag::NOFLSH => "NOFLSH",
            Flag::PENDIN => "PENDIN",
            Flag::TOSTOP => "TOSTOP",
        }
    }

    /// The numeric mask of this flag in the local word.
    pub fn to_raw(&self) -> (r: tcflag_t)
        ensures
            r == flag_mask(*self),
    {
        match *self {
            Flag::ECHOCTL => raw::ECHOCTL,
            Flag::ECHOE => raw::ECHOE,
            Flag::ECHOKE => raw::ECHOKE,
            Flag::ECHOK => raw::ECHOK,
            Flag::ECHONL => raw::ECHONL,
            Flag::ECHOPRT => raw::ECHOPRT,
            Flag::ECHO => raw::ECHO,
            Flag::EXTPROC => raw::EXTPROC,
            Flag::FLUSHO => raw::FLUSHO,
            Flag::ICANON => raw::ICANON,
            Flag::IEXTEN => raw::IEXTEN,
            Flag::ISIG => raw::ISIG,
            Flag::NOFLSH => raw::NOFLSH,
            Flag::PENDIN => raw::PENDIN,
            Flag::TOSTOP => raw::TOSTOP,
        }
    }
}

impl Clear<Flag> for Termios {
    open spec fn spec_clear(v: TermiosView, f: Flag) -> TermiosView {
        clear_flag(v, f)
    }

    fn clear(&mut self, f: Flag) {
        self.lflag.0 = self.lflag.0 & !f.to_raw();
    }
}

impl Contains<Flag> for Termios {
    open spec fn spec_contains(v: TermiosView, f: Flag) -> bool {
        has_flag(v, f)
    }

    fn contains(&self, f: Flag) -> (r: bool) {
        let mask = f.to_raw();
        self.lflag.0 & mask == mask
    }
}

impl SetFlag<Flag> for Termios {
    open spec fn spec_set(v: TermiosView, f: Flag) -> TermiosView {
        set_flag(v, f)
    }

    fn set(&mut self, f: Flag) {
        self.lflag.0 = self.lflag.0 | f.to_raw();
    }
}

/// No local flag has an empty mask.
pub proof fn lemma_flag_mask_nonzero(f: Flag)
    ensures
        flag_mask(f) != 0,
{
}

/// After setting a local flag the record contains it.
pub proof fn lemma_set_then_contains(v: TermiosView, f: Flag)
    ensures
        has_flag(set_flag(v, f), f),
{
    masks::lemma_or_contains(v.lflag, flag_mask(f));
}

/// After clearing a local flag the record no longer contains it.
pub proof fn lemma_clear_then_not_contains(v: TermiosView, f: Flag)
    ensures
        !has_flag(clear_flag(v, f), f),
{
    masks::lemma_andnot_clears(v.lflag, flag_mask(f));
    lemma_flag_mask_nonzero(f);
}

/// Setting a local flag twice is the same as setting it once.
pub proof fn lemma_set_idempotent(v: TermiosView, f: Flag)
    ensures
        set_flag(set_flag(v, f), f) == set_flag(v, f),
{
    masks::lemma_or_idempotent(v.lflag, flag_mask(f));
    assert(set_flag(set_flag(v, f), f) =~= set_flag(v, f));
}

/// Clearing a local flag twice is the same as clearing it once.
pub proof fn lemma_clear_idempotent(v: TermiosView, f: Flag)
    ensures
        clear_flag(clear_flag(v, f), f) == clear_flag(v, f),
{
    masks::lemma_andnot_idempotent(v.lflag, flag_mask(f));
    assert(clear_flag(clear_flag(v, f), f) =~= clear_flag(v, f));
}

} // verus!
