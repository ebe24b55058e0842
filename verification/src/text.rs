//! Spacing out camel-case labels for display.
//!
//! Enum labels such as `RosePineMoon` are shown to the user with spaces
//! between the words.  The transformation inserts a space wherever an ASCII
//! lowercase letter is directly followed by an ASCII uppercase one.

use vstd::prelude::*;
use vstd::string::StrSliceExecFns;
use vstd::string::StringExecFns;

verus! {

/// Whether `c` is an ASCII lowercase letter.
pub open spec fn is_ascii_lower(c: char) -> bool {
    97 <= c as u32 <= 122
}

/// Whether `c` is an ASCII uppercase letter.
pub open spec fn is_ascii_upper(c: char) -> bool {
    65 <= c as u32 <= 90
}

/// Whether a space belongs after position `i` of `s`: a lowercase letter
/// there, an uppercase one next.
pub open spec fn needs_space(s: Seq<char>, i: int) -> bool {
    i + 1 < s.len() && is_ascii_lower(s[i]) && is_ascii_upper(s[i + 1])
}

/// The first `n` characters of `s` with the spaces inserted.
pub open spec fn spaced_spec(s: Seq<char>, n: int) -> Seq<char>
    decreases n,
{
    if n <= 0 {
        Seq::empty()
    } else {
        spaced_spec(s, n - 1) + seq![s[n - 1]] + if needs_space(s, n - 1) {
            seq![' ']
        } else {
            Seq::empty()
        }
    }
}

/// Inserting spaces between the words of a camel-case string.
pub trait Spaceable: Sized + View<V = Seq<char>> {
    /// Inserts a space between each ASCII lowercase letter and the ASCII
    /// uppercase letter that follows it.
    fn insert_spaces(&self) -> (r: Self)
        ensures
            r@ == spaced_spec(self@, self@.len() as int),
    ;
}

impl Spaceable for String {
    fn insert_spaces(&self) -> (r: String) {
        let s = self.as_str();
        let len = s.unicode_len();
        let mut spaced = String::new();
        let mut i: usize = 0;
        while i < len
            invariant
                i <= len,
                len == s@.len(),
                s@ == self@,
                spaced@ == spaced_spec(self@, i as int),
            decreases len - i,
        {
            let piece = s.substring_char(i, i + 1);
            spaced.append(piece);
            proof {
                assert(piece@ =~= seq![self@[i as int]]);
            }
            if i + 1 < len {
                let c = s.get_char(i);
                let next = s.get_char(i + 1);
                let cl = c as u32;
                let nu = next as u32;
                if 97 <= cl && cl <= 122 && 65 <= nu && nu <= 90 {
                    spaced.append(" ");
                    proof {
                        reveal_strlit(" ");
                        assert(" "@ =~= seq![' ']);
                    }
                }
            }
            proof {
                assert(spaced@ =~= spaced_spec(self@, i + 1));
            }
            i = i + 1;
        }
        spaced
    }
}

} // verus!
