//! Text helpers shared by the other modules.

use vstd::prelude::*;
use vstd::string::StringSliceAdditionalSpecFns;
use vstd::utf8::{encode_utf8, encode_utf8_decode_utf8};

verus! {

/// The texts of a vector of strings.
pub open spec fn texts(strings: Seq<String>) -> Seq<Seq<char>> {
    strings.map_values(|s: String| s@)
}

/// What `str::to_uppercase` makes of a text.
pub uninterp spec fn uppercase_of(text: Seq<char>) -> Seq<char>;

/// Whether a character is one of the letters `a` to `z`.
pub open spec fn is_ascii_lowercase(c: char) -> bool {
    'a' <= c <= 'z'
}

/// The letter `A` to `Z` for a letter `a` to `z`; any other character as it is.
pub open spec fn ascii_uppercase(c: char) -> char {
    if is_ascii_lowercase(c) {
        (c as int - 32) as char
    } else {
        c
    }
}

/// Calls `str::to_uppercase`: the result is the upper-case form that the
/// standard library's Unicode tables give, here only named. One case is
/// stated: a text of the letters `a` to `z` alone becomes the same letters
/// `A` to `Z`.
#[verifier::external_body]
pub(crate) fn to_uppercase(text: &str) -> (upper: String)
    ensures
        upper@ == uppercase_of(text@),
        (forall|i: int| 0 <= i < text@.len() ==> is_ascii_lowercase(text@[i])) ==> upper@
            == text@.map_values(|c: char| ascii_uppercase(c)),
{
    text.to_uppercase()
}

/// Two texts with the same UTF-8 bytes are the same text.
pub proof fn lemma_same_bytes_same_text(a: Seq<char>, b: Seq<char>)
    requires
        encode_utf8(a) == encode_utf8(b),
    ensures
        a == b,
{
    encode_utf8_decode_utf8(a);
    encode_utf8_decode_utf8(b);
}

/// Whether `a` and `b` hold the same characters.
pub fn same_text(a: &str, b: &str) -> (same: bool)
    ensures
        same == (a@ == b@),
{
    let x = a.as_bytes();
    let y = b.as_bytes();
    if x.len() != y.len() {
        return false;
    }
    let mut i: usize = 0;
    while i < x.len()
        invariant
            x@ == a.spec_bytes(),
            y@ == b.spec_bytes(),
            x.len() == y.len(),
            i <= x.len(),
            forall|k: int| 0 <= k < i ==> x@[k] == y@[k],
        decreases x.len() - i,
    {
        if x[i] != y[i] {
            return false;
        }
        i = i + 1;
    }
    proof {
        assert(x@ =~= y@);
        lemma_same_bytes_same_text(a@, b@);
    }
    true
}

} // verus!
