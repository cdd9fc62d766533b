//! Byte-level helpers shared by the whole pipeline.
//!
//! The wire format is bytes, while Rust string literals are `&str` with a
//! `Seq<char>` view. `ascii_view` bridges the two: for an ASCII string it is
//! the byte sequence the string encodes to, character by character.

use vstd::prelude::*;

verus! {

use vstd::string::is_ascii;
use vstd::utf8::is_ascii_chars_encode_utf8;

/// The bytes an ASCII character sequence encodes to, one byte per character.
pub open spec fn ascii_view(s: Seq<char>) -> Seq<u8> {
    Seq::new(s.len(), |i: int| s[i] as u8)
}

/// Appends the bytes of an ASCII string to `out`.
pub fn push_ascii(out: &mut Vec<u8>, s: &str)
    requires
        is_ascii(s),
    ensures
        final(out)@ == old(out)@ + ascii_view(s@),
{
    let b = s.as_bytes();
    proof {
        is_ascii_chars_encode_utf8(s@);
        assert(b@ =~= ascii_view(s@));
    }
    out.extend_from_slice(b);
}

/// The bytes of an ASCII string, as a slice.
pub fn ascii_bytes(s: &str) -> (r: &[u8])
    requires
        is_ascii(s),
    ensures
        r@ == ascii_view(s@),
{
    let b = s.as_bytes();
    proof {
        is_ascii_chars_encode_utf8(s@);
        assert(b@ =~= ascii_view(s@));
    }
    b
}

/// Byte-for-byte equality of two slices.
pub fn bytes_eq(a: &[u8], b: &[u8]) -> (r: bool)
    ensures
        r == (a@ == b@),
{
    if a.len() != b.len() {
        proof {
            assert(a@ != b@);
        }
        return false;
    }
    let mut i: usize = 0;
    while i < a.len()
        invariant
            i <= a@.len(),
            a@.len() == b@.len(),
            forall|j: int| 0 <= j < i ==> a@[j] == b@[j],
        decreases a@.len() - i,
    {
        if a[i] != b[i] {
            return false;
        }
        i += 1;
    }
    proof {
        assert(a@ =~= b@);
    }
    true
}

/// Copies `s[a..b]` into a fresh vector.
pub fn sub_bytes(s: &[u8], a: usize, b: usize) -> (r: Vec<u8>)
    requires
        a <= b <= s@.len(),
    ensures
        r@ == s@.subrange(a as int, b as int),
{
    let mut out: Vec<u8> = Vec::new();
    let mut i: usize = a;
    while i < b
        invariant
            a <= i <= b <= s@.len(),
            out@ == s@.subrange(a as int, i as int),
        decreases b - i,
    {
        out.push(s[i]);
        proof {
            assert(out@ =~= s@.subrange(a as int, i + 1 as int));
        }
        i += 1;
    }
    out
}

/// True when `s` ends in `suffix`.
pub open spec fn ends_with(s: Seq<u8>, suffix: Seq<u8>) -> bool {
    s.len() >= suffix.len() && s.subrange(s.len() - suffix.len(), s.len() as int) == suffix
}

/// True when the slice ends in the bytes of the ASCII string `suffix`.
pub fn has_suffix(s: &[u8], suffix: &str) -> (r: bool)
    requires
        is_ascii(suffix),
    ensures
        r == ends_with(s@, ascii_view(suffix@)),
{
    let sfx = ascii_bytes(suffix);
    if s.len() < sfx.len() {
        return false;
    }
    let slen: usize = s.len();
    let start: usize = slen - sfx.len();
    let mut i: usize = 0;
    while i < sfx.len()
        invariant
            i <= sfx@.len(),
            sfx@.len() <= s@.len(),
            slen == s@.len(),
            start == s@.len() - sfx@.len(),
            sfx@ == ascii_view(suffix@),
            forall|j: int| 0 <= j < i ==> s@[start + j] == sfx@[j],
        decreases sfx@.len() - i,
    {
        if s[start + i] != sfx[i] {
            proof {
                assert(s@.subrange(s@.len() - sfx@.len(), s@.len() as int)[i as int] != sfx@[i as int]);
            }
            return false;
        }
        i += 1;
    }
    proof {
        assert(s@.subrange(s@.len() - sfx@.len(), s@.len() as int) =~= sfx@);
    }
    true
}

/// The decimal digits (most significant first) of `n`.
pub open spec fn dec_rep(n: nat) -> Seq<u8>
    decreases n,
{
    if n < 10 {
        seq![(48 + n) as u8]
    } else {
        dec_rep(n / 10) + seq![(48 + n % 10) as u8]
    }
}

/// True when every byte of `s` is a decimal digit.
pub open spec fn all_digits(s: Seq<u8>) -> bool {
    forall|i: int| 0 <= i < s.len() ==> 48 <= #[trigger] s[i] <= 57
}

/// The number a sequence of decimal digits denotes.
pub open spec fn dec_val(s: Seq<u8>) -> nat
    decreases s.len(),
{
    if s.len() == 0 {
        0
    } else {
        dec_val(s.drop_last()) * 10 + (s.last() - 48) as nat
    }
}

/// The decimal representation is made of digits and denotes the number it
/// was built from.
pub proof fn lemma_dec_rep_val(n: nat)
    ensures
        all_digits(dec_rep(n)),
        dec_val(dec_rep(n)) == n,
        dec_rep(n).len() >= 1,
    decreases n,
{
    if n < 10 {
        assert(dec_rep(n) =~= seq![(48 + n) as u8]);
        assert(dec_rep(n).drop_last() =~= Seq::<u8>::empty());
        assert(dec_val(dec_rep(n)) == dec_val(Seq::<u8>::empty()) * 10 + ((48 + n) as u8 - 48) as nat);
    } else {
        lemma_dec_rep_val(n / 10);
        assert(dec_rep(n).drop_last() =~= dec_rep(n / 10));
        assert(dec_rep(n).last() == (48 + n % 10) as u8);
        assert(0 <= n % 10 < 10);
        assert(dec_val(dec_rep(n)) == dec_val(dec_rep(n / 10)) * 10 + ((48 + n % 10) as u8 - 48) as nat);
        assert(dec_val(dec_rep(n)) == (n / 10) * 10 + n % 10);
        vstd::arithmetic::div_mod::lemma_fundamental_div_mod(n as int, 10);
        assert(n == 10 * (n / 10) + n % 10);
    }
}

/// Appends the decimal digits of `n` to `out`.
pub fn push_dec(out: &mut Vec<u8>, n: usize)
    ensures
        final(out)@ == old(out)@ + dec_rep(n as nat),
    decreases n,
{
    if n >= 10 {
        push_dec(out, n / 10);
    }
    let d: u8 = (n % 10) as u8 + 48;
    out.push(d);
    proof {
        assert(out@ =~= old(out)@ + dec_rep(n as nat));
    }
}

} // verus!
