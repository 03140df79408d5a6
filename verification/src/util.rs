//! Small string helpers shared across the library: exact string equality,
//! ASCII-case-insensitive equality (used for email keys), and decimal
//! rendering of identifiers.

use vstd::prelude::*;

verus! {

use vstd::string::StringSliceAdditionalSpecFns;

/// Lower-case image of one byte under ASCII case folding.
pub open spec fn lower_byte(b: u8) -> u8 {
    if 65 <= b && b <= 90 {
        (b + 32) as u8
    } else {
        b
    }
}

/// Byte sequences that agree after ASCII case folding. Emails are compared
/// under this relation, so `A@B.com` and `a@b.com` name the same account.
pub open spec fn eq_mod_ascii_case(a: Seq<u8>, b: Seq<u8>) -> bool {
    a.map_values(|x: u8| lower_byte(x)) == b.map_values(|x: u8| lower_byte(x))
}

/// Every byte is ASCII.
pub open spec fn all_ascii(s: Seq<u8>) -> bool {
    forall|i: int| 0 <= i < s.len() ==> #[trigger] s[i] < 128
}

/// The characters an all-ASCII byte sequence spells, one per byte.
pub open spec fn ascii_chars(s: Seq<u8>) -> Seq<char> {
    s.map_values(|b: u8| b as char)
}

/// Relies on str's `PartialEq`: two string slices are equal exactly when
/// their character sequences are.
#[verifier::external_body]
pub fn str_eq(a: &str, b: &str) -> (r: bool)
    ensures
        r == (a@ == b@),
{
    a == b
}

/// ASCII-case-insensitive comparison, byte for byte.
pub fn eq_ignore_ascii_case(a: &str, b: &str) -> (r: bool)
    ensures
        r == eq_mod_ascii_case(a.spec_bytes(), b.spec_bytes()),
{
    let ab = a.as_bytes();
    let bb = b.as_bytes();
    if ab.len() != bb.len() {
        assert(a.spec_bytes().map_values(|x: u8| lower_byte(x)).len() == a.spec_bytes().len());
        assert(b.spec_bytes().map_values(|x: u8| lower_byte(x)).len() == b.spec_bytes().len());
        return false;
    }
    let n = ab.len();
    let mut i: usize = 0;
    while i < n
        invariant
            n == ab@.len() == bb@.len(),
            ab@ == a.spec_bytes(),
            bb@ == b.spec_bytes(),
            i <= n,
            forall|j: int| 0 <= j < i ==> lower_byte(ab@[j]) == lower_byte(bb@[j]),
        decreases n - i,
    {
        let x = ab[i];
        let y = bb[i];
        let lx = if 65 <= x && x <= 90 { x + 32 } else { x };
        let ly = if 65 <= y && y <= 90 { y + 32 } else { y };
        if lx != ly {
            assert(a.spec_bytes().map_values(|x: u8| lower_byte(x))[i as int] == lower_byte(
                ab@[i as int],
            ));
            assert(b.spec_bytes().map_values(|x: u8| lower_byte(x))[i as int] == lower_byte(
                bb@[i as int],
            ));
            return false;
        }
        i = i + 1;
    }
    assert(a.spec_bytes().map_values(|x: u8| lower_byte(x)) =~= b.spec_bytes().map_values(
        |x: u8| lower_byte(x),
    ));
    true
}

} // verus!
