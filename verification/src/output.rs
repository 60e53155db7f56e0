//! Software output processing

use vstd::prelude::*;
use vstd::string::StringExecFns;

use crate::masks;
use crate::raw;
use crate::raw::tcflag_t;
use crate::traits::{Clear, Contains, SetFlag};
use crate::Termios;
use crate::TermiosView;

verus! {

/// Output flags
#[derive(Clone, Copy, PartialEq, Eq, Structural)]
pub struct Flags(pub tcflag_t);

impl View for Flags {
    type V = tcflag_t;

    open spec fn view(&self) -> tcflag_t {
        self.0
    }
}

/// Standard output flags
#[derive(Clone, Copy, Debug, PartialEq, Eq, Structural)]
pub enum Flag {
    /// Map CR to NL on output
    OCRNL,
    /// Map NL to CR-NL (ala CRMOD)
    ONLCR,
    /// NL performs CR function
    ONLRET,
    /// No CR output at column 0
    ONOCR,
    /// Enable following output processing
    OPOST,
}

/// The bit mask of a named output flag.
pub open spec fn flag_mask(f: Flag) -> tcflag_t {
    match f {
        Flag::OCRNL => raw::OCRNL,
        Flag::ONLCR => raw::ONLCR,
        Flag::ONLRET => raw::ONLRET,
        Flag::ONOCR => raw::ONOCR,
        Flag::OPOST => raw::OPOST,
    }
}

/// The record with an output flag turned on.
pub open spec fn set_flag(v: TermiosView, f: Flag) -> TermiosView {
    TermiosView { oflag: v.oflag | flag_mask(f), ..v }
}

/// The record with an output flag turned off.
pub open spec fn clear_flag(v: TermiosView, f: Flag) -> TermiosView {
    TermiosView { oflag: v.oflag & !flag_mask(f), ..v }
}

/// Whether every bit of an output flag is on.
pub open spec fn has_flag(v: TermiosView, f: Flag) -> bool {
    v.oflag & flag_mask(f) == flag_mask(f)
}

/// The printed name of a named output flag.
pub open spec fn flag_label(f: Flag) -> Seq<char> {
    match f {
        Flag::OCRNL => "OCRNL"@,
        Flag::ONLCR => "ONLCR"@,
        Flag::ONLRET => "ONLRET"@,
        Flag::ONOCR => "ONOCR"@,
        Flag::OPOST => "OPOST"@,
    }
}

/// The canonical enumeration order in which the debug listing walks the
/// named output flags.
pub open spec fn nth_flag(i: int) -> Flag {
    if i == 0 {
        Flag::OCRNL
    } else if i == 1 {
        Flag::ONLCR
    } else if i == 2 {
        Flag::ONLRET
    } else if i == 3 {
        Flag::ONOCR
    } else {
        Flag::OPOST
    }
}

/// The listing of the set output flags from position `i` on; `first` says
/// whether nothing has been printed yet, so no separator is due.
pub open spec fn render_from(w: tcflag_t, i: int, first: bool) -> Seq<char>
    decreases 5 - i,
{
    if i < 0 || i >= 5 {
        Seq::empty()
    } else {
        let f = nth_flag(i);
        let m = flag_mask(f);
        if w & m == m {
            (if first {
                flag_label(f)
            } else {
                " | "@ + flag_label(f)
            }) + render_from(w, i + 1, false)
        } else {
            render_from(w, i + 1, first)
        }
    }
}

/// The canonical debug listing of an output word: every currently-set
/// named flag, in enumeration order, joined by a separator.
pub open spec fn spec_debug(w: tcflag_t) -> Seq<char> {
    render_from(w, 0, true)
}

impl Flags {
    /// Deterministic, human-readable listing of every currently-set named
    /// flag, in the canonical enumeration order.
    pub fn debug_string(&self) -> (r: String)
        ensures
            r@ == spec_debug(self@),
    {
        let w = self.0;
        let mut s = String::new();
        let mut first: bool = true;
        let mut i: usize = 0;
        proof {
            assert(Seq::<char>::empty() + render_from(w, 0, true) =~= render_from(w, 0, true));
        }
        while i < 5
            invariant
                i <= 5,
                spec_debug(w) == s@ + render_from(w, i as int, first),
            decreases 5 - i,
        {
            let f = nth_flag_ex(i);
            let m = f.to_raw();
            if w & m == m {
                let ghost s0 = s@;
                let ghost rest = render_from(w, i as int + 1, false);
                if !first {
                    s.append(" | ");
                }
                s.append(f.label());
                proof {
                    if first {
                        assert(s0 + (flag_label(f) + rest) =~= (s0 + flag_label(f)) + rest);
                    } else {
                        assert(s0 + ((" | "@ + flag_label(f)) + rest) =~= ((s0 + " | "@)
                            + flag_label(f)) + rest);
                    }
                }
                first = false;
            }
            i = i + 1;
        }
        proof {
            assert(s@ + render_from(w, 5, first) =~= s@);
        }
        s
    }
}

/// The canonical enumeration order, as an executable lookup.
fn nth_flag_ex(i: usize) -> (f: Flag)
    requires
        i < 5,
    ensures
        f == nth_flag(i as int),
{
    if i == 0 {
        Flag::OCRNL
    } else if i == 1 {
        Flag::ONLCR
    } else if i == 2 {
        Flag::ONLRET
    } else if i == 3 {
        Flag::ONOCR
    } else {
        Flag::OPOST
    }
}

impl Flag {
    /// The printed name of this flag.
    pub fn label(&self) -> (r: &'static str)
        ensures
            r@ == flag_label(*self),
    {
        match *self {
            Flag::OCRNL => "OCRNL",
            Flag::ONLCR => "ONLCR",
            Flag::ONLRET => "ONLRET",
            Flag::ONOCR => "ONOCR",
            Flag::OPOST => "OPOST",
        }
    }

    /// The numeric mask of this flag in the output word.
    pub fn to_raw(&self) -> (r: tcflag_t)
        ensures
            r == flag_mask(*self),
    {
        match *self {
            Flag::OCRNL => raw::OCRNL,
            Flag::ONLCR => raw::ONLCR,
            Flag::ONLRET => raw::ONLRET,
            Flag::ONOCR => raw::ONOCR,
            Flag::OPOST => raw::OPOST,
        }
    }
}

impl Clear<Flag> for Termios {
    open spec fn spec_clear(v: TermiosView, f: Flag) -> TermiosView {
        clear_flag(v, f)
    }

    fn clear(&mut self, f: Flag) {
        self.oflag.0 = self.oflag.0 & !f.to_raw();
    }
}

impl Contains<Flag> for Termios {
    open spec fn spec_contains(v: TermiosView, f: Flag) -> bool {
        has_flag(v, f)
    }

    fn contains(&self, f: Flag) -> (r: bool) {
        let mask = f.to_raw();
        self.oflag.0 & mask == mask
    }
}

impl SetFlag<Flag> for Termios {
    open spec fn spec_set(v: TermiosView, f: Flag) -> TermiosView {
        set_flag(v, f)
    }

    fn set(&mut self, f: Flag) {
        self.oflag.0 = self.oflag.0 | f.to_raw();
    }
}

/// No output flag has an empty mask.
pub proof fn lemma_flag_mask_nonzero(f: Flag)
    ensures
        flag_mask(f) != 0,
{
}

/// After setting an output flag the record contains it.
pub proof fn lemma_set_then_contains(v: TermiosView, f: Flag)
    ensures
        has_flag(set_flag(v, f), f),
{
    masks::lemma_or_contains(v.oflag, flag_mask(f));
}

/// After clearing an output flag the record no longer contains it.
pub proof fn lemma_clear_then_not_contains(v: TermiosView, f: Flag)
    ensures
        !has_flag(clear_flag(v, f), f),
{
    masks::lemma_andnot_clears(v.oflag, flag_mask(f));
    lemma_flag_mask_nonzero(f);
}

/// Setting an output flag twice is the same as setting it once.
pub proof fn lemma_set_idempotent(v: TermiosView, f: Flag)
    ensures
        set_flag(set_flag(v, f), f) == set_flag(v, f),
{
    masks::lemma_or_idempotent(v.oflag, flag_mask(f));
    assert(set_flag(set_flag(v, f), f) =~= set_flag(v, f));
}

/// Clearing an output flag twice is the same as clearing it once.
pub proof fn lemma_clear_idempotent(v: TermiosView, f: Flag)
    ensures
        clear_flag(clear_flag(v, f), f) == clear_flag(v, f),
{
    masks::lemma_andnot_idempotent(v.oflag, flag_mask(f));
    assert(clear_flag(clear_flag(v, f), f) =~= clear_flag(v, f));
}

} // verus!
