//! Byte-string helpers.
//!
//! Command-line tokens, command texts, labels and paths are handled as raw
//! byte strings (`Vec<u8>`), as the operating system hands them over.  Spec
//! functions here give the mathematical reading of the few byte-level
//! operations the library needs.

use vstd::prelude::*;

verus! {

use vstd::std_specs::cmp::PartialEqSpec;
use vstd::string::StringSliceAdditionalSpecFns;

/// The bytes of an ASCII string, one byte per character.
pub open spec fn lit_bytes(s: Seq<char>) -> Seq<u8> {
    s.map_values(|c: char| c as u8)
}

/// ASCII digits and letters: the alphabet of the random suffixes.
pub open spec fn is_alphanumeric_byte(b: u8) -> bool {
    (48 <= b <= 57) || (65 <= b <= 90) || (97 <= b <= 122)
}

/// Lower-casing of a single ASCII byte.
pub open spec fn lower_byte(b: u8) -> u8 {
    if 65 <= b <= 90 {
        (b + 32) as u8
    } else {
        b
    }
}

/// Equality of two byte strings up to ASCII case.
pub open spec fn eq_ignore_ascii_case_bytes(a: Seq<u8>, b: Seq<u8>) -> bool {
    a.map_values(|x: u8| lower_byte(x)) == b.map_values(|x: u8| lower_byte(x))
}

/// Whether a token begins with `-`, the mark of a flag.
pub open spec fn starts_with_dash(t: Seq<u8>) -> bool {
    t.len() > 0 && t[0] == 45u8
}

/// The views of a sequence of owned byte strings.
pub open spec fn views_of(v: Seq<Vec<u8>>) -> Seq<Seq<u8>> {
    v.map_values(|x: Vec<u8>| x@)
}

/// Copies the bytes of an ASCII string into an owned byte string.
pub fn lit_vec(s: &str) -> (v: Vec<u8>)
    requires
        s.is_ascii(),
    ensures
        v@ == lit_bytes(s@),
{
    broadcast use vstd::string::is_ascii_spec_bytes;

    let b = s.as_bytes();
    let mut v: Vec<u8> = Vec::new();
    let mut i: usize = 0;
    while i < b.len()
        invariant
            i <= b.len(),
            b@ == s.spec_bytes(),
            s.is_ascii(),
            v@ == lit_bytes(s@).take(i as int),
        decreases b.len() - i,
    {
        v.push(b[i]);
        i = i + 1;
        proof {
            assert(v@ =~= lit_bytes(s@).take(i as int));
        }
    }
    proof {
        assert(v@ =~= lit_bytes(s@));
    }
    v
}

/// Whether token `t` is exactly the ASCII string `s`.
pub fn token_is(t: &Vec<u8>, s: &str) -> (r: bool)
    requires
        s.is_ascii(),
    ensures
        r == (t@ == lit_bytes(s@)),
{
    let v = lit_vec(s);
    let r = *t == v;
    proof {
        if r {
            assert(t@ =~= v@);
        } else {
            if t@ == v@ {
                assert(t.eq_spec(&v));
            }
        }
    }
    r
}

/// Lower-cases one ASCII byte; other bytes pass through.
pub fn to_lower(b: u8) -> (r: u8)
    ensures
        r == lower_byte(b),
{
    if 65 <= b && b <= 90 {
        b + 32
    } else {
        b
    }
}

/// Whether token `t` equals the ASCII string `s` up to ASCII case.
pub fn token_is_ignore_case(t: &Vec<u8>, s: &str) -> (r: bool)
    requires
        s.is_ascii(),
    ensures
        r == eq_ignore_ascii_case_bytes(t@, lit_bytes(s@)),
{
    let v = lit_vec(s);
    if t.len() != v.len() {
        proof {
            assert(t@.map_values(|x: u8| lower_byte(x)).len() != v@.map_values(
                |x: u8| lower_byte(x),
            ).len());
        }
        return false;
    }
    let mut i: usize = 0;
    while i < t.len()
        invariant
            i <= t@.len(),
            t@.len() == v@.len(),
            v@ == lit_bytes(s@),
            forall|j: int|
                0 <= j < i ==> lower_byte(t@[j]) == lower_byte(v@[j]),
        decreases t@.len() - i,
    {
        if to_lower(t[i]) != to_lower(v[i]) {
            proof {
                assert(t@.map_values(|x: u8| lower_byte(x))[i as int] != v@.map_values(
                    |x: u8| lower_byte(x),
                )[i as int]);
            }
            return false;
        }
        i = i + 1;
    }
    proof {
        assert(t@.map_values(|x: u8| lower_byte(x)) =~= v@.map_values(|x: u8| lower_byte(x)));
    }
    true
}

/// Copies an owned byte string.
pub fn clone_bytes(v: &Vec<u8>) -> (r: Vec<u8>)
    ensures
        r@ == v@,
{
    let r = v.clone();
    proof {
        assert(r@ =~= v@);
    }
    r
}

/// Appends the bytes of `src` to `dst`.
pub fn push_bytes(dst: &mut Vec<u8>, src: &Vec<u8>)
    ensures
        final(dst)@ == old(dst)@ + src@,
{
    let mut i: usize = 0;
    while i < src.len()
        invariant
            i <= src@.len(),
            dst@ == old(dst)@ + src@.take(i as int),
        decreases src@.len() - i,
    {
        dst.push(src[i]);
        i = i + 1;
        proof {
            assert(dst@ =~= old(dst)@ + src@.take(i as int));
        }
    }
    proof {
        assert(dst@ =~= old(dst)@ + src@);
    }
}

} // verus!
