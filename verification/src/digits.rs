//! Decimal rendering of numeric identifiers and codes, with an exact
//! character-level specification.

use vstd::prelude::*;

verus! {

use crate::util::ascii_chars;

/// The ASCII byte of one decimal digit.
pub open spec fn digit_byte(d: int) -> u8 {
    (48 + d) as u8
}

/// The decimal digit bytes of `n`, most significant first.
pub open spec fn spec_dec_bytes(n: int) -> Seq<u8>
    decreases n,
{
    if n < 10 {
        seq![digit_byte(n)]
    } else {
        spec_dec_bytes(n / 10).push(digit_byte(n % 10))
    }
}

/// Relies on `String::from_utf8`: an all-ASCII byte vector is valid UTF-8
/// and decodes to exactly one character per byte.
#[verifier::external_body]
pub(crate) fn ascii_to_string(v: Vec<u8>) -> (r: String)
    requires
        forall|i: int| 0 <= i < v@.len() ==> v@[i] < 128,
    ensures
        r@ == ascii_chars(v@),
{
    String::from_utf8(v).unwrap_or_default()
}

proof fn lemma_dec_bytes_ascii(n: int)
    requires
        n >= 0,
    ensures
        forall|i: int| 0 <= i < spec_dec_bytes(n).len() ==> 48 <= #[trigger] spec_dec_bytes(n)[i]
            <= 57,
    decreases n,
{
    if n < 10 {
        assert(spec_dec_bytes(n) =~= seq![digit_byte(n)]);
    } else {
        lemma_dec_bytes_ascii(n / 10);
        assert forall|i: int| 0 <= i < spec_dec_bytes(n).len() implies 48 <= #[trigger] spec_dec_bytes(
            n,
        )[i] <= 57 by {
            if i < spec_dec_bytes(n / 10).len() {
                assert(spec_dec_bytes(n)[i] == spec_dec_bytes(n / 10)[i]);
            } else {
                assert(spec_dec_bytes(n)[i] == digit_byte(n % 10));
            }
        }
    }
}

/// The decimal digit characters of `n`.
pub open spec fn spec_dec_chars(n: int) -> Seq<char> {
    ascii_chars(spec_dec_bytes(n))
}

/// Render `n` in decimal.
pub fn u64_to_dec(n: u64) -> (r: String)
    ensures
        r@ == spec_dec_chars(n as int),
{
    let mut rev: Vec<u8> = Vec::new();
    let mut m: u64 = n;
    proof {
        assert(rev@.reverse() =~= Seq::<u8>::empty());
        assert(spec_dec_bytes(n as int) =~= spec_dec_bytes(m as int) + rev@.reverse());
    }
    loop
        invariant_except_break
            spec_dec_bytes(n as int) =~= spec_dec_bytes(m as int) + rev@.reverse(),
        ensures
            spec_dec_bytes(n as int) =~= rev@.reverse(),
        decreases m,
    {
        let d: u8 = (m % 10) as u8;
        let next: u64 = m / 10;
        proof {
            assert(rev@.push((48 + d) as u8).reverse() =~= seq![(48 + d) as u8] + rev@.reverse());
        }
        rev.push(48 + d);
        if m < 10 {
            proof {
                assert(spec_dec_bytes(m as int) =~= seq![digit_byte(m as int)]);
                assert(spec_dec_bytes(n as int) =~= rev@.reverse());
            }
            break;
        }
        proof {
            assert(spec_dec_bytes(m as int) =~= spec_dec_bytes(m as int / 10) + seq![
                digit_byte(m as int % 10),
            ]);
            assert(spec_dec_bytes(n as int) =~= spec_dec_bytes(next as int) + rev@.reverse());
        }
        m = next;
    }
    let len = rev.len();
    let mut out: Vec<u8> = Vec::new();
    let mut i: usize = len;
    while i > 0
        invariant
            i <= len,
            len == rev@.len(),
            out@ =~= rev@.subrange(i as int, len as int).reverse(),
        decreases i,
    {
        i = i - 1;
        out.push(rev[i]);
        proof {
            assert(rev@.subrange(i as int, len as int).reverse() =~= rev@.subrange(
                i + 1,
                len as int,
            ).reverse().push(rev@[i as int]));
        }
    }
    proof {
        assert(rev@.subrange(0, len as int) =~= rev@);
        assert(out@ =~= spec_dec_bytes(n as int));
        lemma_dec_bytes_ascii(n as int);
    }
    ascii_to_string(out)
}

} // verus!
