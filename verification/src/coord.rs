//! A coordinate value as the renderer sees it: the text its number prints as.
//!
//! The renderers never compute with coordinates; they only copy them into the
//! output, plainly or with an explicit sign. Holding the printed text keeps
//! the rendering logic itself fully verifiable, for any numeric width the
//! caller formats from.

use vstd::prelude::*;
use vstd::string::StrSliceExecFns;
use vstd::string::StringExecFns;

verus! {

/// One coordinate of a stored point or of the tree's bounding box, held as
/// the text its number prints as (`"1"`, `"-3.5"`).
pub struct Coord {
    text: String,
}

impl View for Coord {
    type V = Seq<char>;

    closed spec fn view(&self) -> Seq<char> {
        self.text@
    }
}

/// The text of a coordinate written with an explicit sign: a leading `+` is
/// added unless the text already opens with a `-`.
pub open spec fn signed_text(s: Seq<char>) -> Seq<char> {
    if s.len() > 0 && s[0] == '-' {
        s
    } else {
        seq!['+'] + s
    }
}

impl Coord {
    /// A coordinate's text is never empty, so its first character can be
    /// inspected when a sign is prefixed.
    pub open spec fn wf(&self) -> bool {
        self@.len() > 0
    }

    pub fn new(text: String) -> (c: Coord)
        requires
            text@.len() > 0,
        ensures
            c@ == text@,
            c.wf(),
    {
        Coord { text }
    }

    pub fn as_str(&self) -> (s: &str)
        ensures
            s@ == self@,
    {
        self.text.as_str()
    }
}

impl Clone for Coord {
    fn clone(&self) -> (c: Self)
        ensures
            c@ == self@,
    {
        Coord { text: self.text.clone() }
    }
}

impl PartialEq for Coord {
    fn eq(&self, other: &Self) -> (r: bool) {
        self.text == other.text
    }
}

impl vstd::std_specs::cmp::PartialEqSpecImpl for Coord {
    open spec fn obeys_eq_spec() -> bool {
        true
    }

    open spec fn eq_spec(&self, other: &Self) -> bool {
        self@ == other@
    }
}

/// Appends the coordinate's text with an explicit sign, as the dump writes
/// every point component.
pub fn write_signed(c: &Coord, out: &mut String)
    requires
        c.wf(),
    ensures
        final(out)@ == old(out)@ + signed_text(c@),
{
    let first = c.as_str().get_char(0);
    if first == '-' {
        out.append(c.as_str());
    } else {
        out.append("+");
        out.append(c.as_str());
        proof {
            reveal_strlit("+");
            assert("+"@ =~= seq!['+']);
            assert(out@ =~= old(out)@ + signed_text(c@));
        }
    }
}

} // verus!
