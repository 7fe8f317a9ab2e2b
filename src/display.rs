//! Text form of a vector: `(x, y, z)` from the components' own text, padded
//! as a whole to a minimum width.

use vstd::prelude::*;
use vstd::string::{StrSliceExecFns, StringExecFns};
use crate::vector::Vector3d;

verus! {

/// Where the text stands inside a field wider than itself.
#[derive(Clone, Copy, Debug, PartialEq, Eq)]
pub enum Alignment {
    /// Text first, then the padding.
    Left,
    /// Padding first, then the text.
    Right,
    /// Half the padding on each side, the odd space after the text.
    Center,
}

/// `n` spaces.
pub open spec fn spaces(n: nat) -> Seq<char> {
    Seq::new(n, |_i: int| ' ')
}

/// `(x, y, z)`.
pub open spec fn spec_parenthesized(x: Seq<char>, y: Seq<char>, z: Seq<char>) -> Seq<char> {
    seq!['('] + x + seq![',', ' '] + y + seq![',', ' '] + z + seq![')']
}

/// `s` padded with spaces to at least `width` characters, placed by `align`.
pub open spec fn spec_padded(s: Seq<char>, width: nat, align: Alignment) -> Seq<char> {
    if s.len() >= width {
        s
    } else {
        let p = (width - s.len()) as nat;
        let before: nat = match align {
            Alignment::Left => 0,
            Alignment::Right => p,
            Alignment::Center => p / 2,
        };
        spaces(before) + s + spaces((p - before) as nat)
    }
}

/// Appends `n` spaces to `out`.
fn push_spaces(out: &mut String, n: usize)
    ensures
        final(out)@ == old(out)@ + spaces(n as nat),
{
    let mut i: usize = 0;
    while i < n
        invariant
            i <= n,
            out@ == old(out)@ + spaces(i as nat),
        decreases n - i,
    {
        proof {
            reveal_strlit(" ");
        }
        out.append(" ");
        i += 1;
        assert(out@ =~= old(out)@ + spaces(i as nat));
    }
}

/// `s` padded with spaces to at least `width` characters, placed by `align`.
pub fn pad(s: &str, width: usize, align: Alignment) -> (r: String)
    ensures
        r@ == spec_padded(s@, width as nat, align),
{
    let len = s.unicode_len();
    let mut out = String::new();
    if len >= width {
        out.append(s);
        return out;
    }
    let p = width - len;
    let before = match align {
        Alignment::Left => 0,
        Alignment::Right => p,
        Alignment::Center => p / 2,
    };
    push_spaces(&mut out, before);
    out.append(s);
    push_spaces(&mut out, p - before);
    out
}

/// `(x, y, z)` from the text of the three components.
pub fn parenthesized(x: &str, y: &str, z: &str) -> (r: String)
    ensures
        r@ == spec_parenthesized(x@, y@, z@),
{
    proof {
        reveal_strlit("(");
        reveal_strlit(", ");
        reveal_strlit(")");
    }
    let mut out = String::new();
    out.append("(");
    out.append(x);
    out.append(", ");
    out.append(y);
    out.append(", ");
    out.append(z);
    out.append(")");
    assert(out@ =~= spec_parenthesized(x@, y@, z@));
    out
}

impl Vector3d<String> {
    /// The text of a vector whose components are already written out:
    /// `(x, y, z)`, padded as a whole to `width` (none: no padding) and
    /// placed by `align` (none: to the left).
    pub fn render(&self, width: Option<usize>, align: Option<Alignment>) -> (r: String)
        ensures
            r@ == spec_padded(
                spec_parenthesized(self.x@, self.y@, self.z@),
                match width {
                    Some(w) => w as nat,
                    None => 0,
                },
                match align {
                    Some(a) => a,
                    None => Alignment::Left,
                },
            ),
    {
        let s = parenthesized(self.x.as_str(), self.y.as_str(), self.z.as_str());
        let w = match width {
            Some(w) => w,
            None => 0,
        };
        let a = match align {
            Some(a) => a,
            None => Alignment::Left,
        };
        pad(s.as_str(), w, a)
    }
}

} // verus!
