//! Small verified helpers on byte slices and byte vectors; the request
//! normalization and response formatting are stated and proved over these.

use vstd::prelude::*;
use vstd::string::StringSliceAdditionalSpecFns;

verus! {

/// The bytes of a sequence of ASCII characters.
pub open spec fn ascii_bytes(s: Seq<char>) -> Seq<u8> {
    s.map_values(|c: char| c as u8)
}

/// Whether `b` occurs anywhere in `s`.
pub open spec fn has_byte(s: Seq<u8>, b: u8) -> bool {
    exists|i: int| 0 <= i < s.len() && s[i] == b
}

/// The index of the last occurrence of `b` in `s`, if any.
pub open spec fn spec_last_index_of(s: Seq<u8>, b: u8) -> Option<int>
    decreases s.len(),
{
    if s.len() == 0 {
        None
    } else if s[s.len() - 1] == b {
        Some(s.len() - 1)
    } else {
        spec_last_index_of(s.drop_last(), b)
    }
}

/// `spec_last_index_of` finds an occurrence exactly when one exists, and what
/// it finds is the last one.
pub proof fn lemma_last_index_of(s: Seq<u8>, b: u8)
    ensures
        spec_last_index_of(s, b) is Some <==> has_byte(s, b),
        spec_last_index_of(s, b) matches Some(i) ==> 0 <= i < s.len() && s[i] == b && (forall|j:
            int| i < j < s.len() ==> s[j] != b),
    decreases s.len(),
{
    if s.len() == 0 {
    } else if s[s.len() - 1] == b {
    } else {
        lemma_last_index_of(s.drop_last(), b);
        assert(forall|j: int| 0 <= j < s.len() - 1 ==> s.drop_last()[j] == s[j]);
        if has_byte(s, b) {
            let i = choose|i: int| 0 <= i < s.len() && s[i] == b;
            assert(i < s.len() - 1);
            assert(has_byte(s.drop_last(), b)) by {
                assert(s.drop_last()[i] == b);
            }
        }
        if has_byte(s.drop_last(), b) {
            let i = choose|i: int| 0 <= i < s.drop_last().len() && s.drop_last()[i] == b;
            assert(s[i] == b);
        }
    }
}

/// Byte-wise equality of two slices.
pub fn bytes_eq(a: &[u8], b: &[u8]) -> (r: bool)
    ensures
        r == (a@ == b@),
{
    if a.len() != b.len() {
        assert(a@.len() != b@.len());
        return false;
    }
    let mut i: usize = 0;
    while i < a.len()
        invariant
            i <= a@.len(),
            a@.len() == b@.len(),
            forall|j: int| 0 <= j < i ==> a@[j] == b@[j],
        decreases a@.len() - i,
    {
        if a[i] != b[i] {
            return false;
        }
        i += 1;
    }
    proof {
        assert(a@ =~= b@);
    }
    true
}

/// Compares a byte slice against the bytes of an ASCII string literal.
pub fn eq_lit(v: &[u8], s: &str) -> (r: bool)
    requires
        s.is_ascii(),
    ensures
        r == (v@ == ascii_bytes(s@)),
{
    proof {
        vstd::string::is_ascii_spec_bytes(s);
        assert(s.spec_bytes() =~= ascii_bytes(s@));
    }
    bytes_eq(v, s.as_bytes())
}

/// The bytes of an ASCII string literal, as a fresh vector.
pub fn lit_bytes(s: &str) -> (r: Vec<u8>)
    requires
        s.is_ascii(),
    ensures
        r@ == ascii_bytes(s@),
{
    proof {
        vstd::string::is_ascii_spec_bytes(s);
        assert(s.spec_bytes() =~= ascii_bytes(s@));
    }
    vstd::slice::slice_to_vec(s.as_bytes())
}

/// Appends every byte of `s` to `v`.
pub fn push_all(v: &mut Vec<u8>, s: &[u8])
    ensures
        final(v)@ == old(v)@ + s@,
{
    let mut i: usize = 0;
    while i < s.len()
        invariant
            i <= s@.len(),
            v@ == old(v)@ + s@.take(i as int),
        decreases s@.len() - i,
    {
        v.push(s[i]);
        proof {
            assert(v@ =~= old(v)@ + s@.take(i as int + 1));
        }
        i += 1;
    }
    proof {
        assert(s@.take(s@.len() as int) =~= s@);
    }
}

/// The index of the last occurrence of `b` in `v`, if any.
pub fn last_index_of(v: &[u8], b: u8) -> (r: Option<usize>)
    ensures
        match r {
            Some(i) => spec_last_index_of(v@, b) == Some(i as int),
            None => spec_last_index_of(v@, b) is None,
        },
{
    proof {
        assert(v@.take(v@.len() as int) =~= v@);
    }
    let mut i: usize = v.len();
    while i > 0
        invariant
            i <= v@.len(),
            spec_last_index_of(v@, b) == spec_last_index_of(v@.take(i as int), b),
        decreases i,
    {
        i = i - 1;
        if v[i] == b {
            proof {
                assert(v@.take(i as int + 1)[i as int] == v@[i as int]);
            }
            return Some(i);
        }
        proof {
            assert(v@.take(i as int + 1)[i as int] == v@[i as int]);
            assert(v@.take(i as int + 1).drop_last() =~= v@.take(i as int));
        }
    }
    proof {
        assert(v@.take(0) =~= Seq::<u8>::empty());
    }
    None
}

/// Whether `b` occurs anywhere in `v`.
pub fn contains_byte(v: &[u8], b: u8) -> (r: bool)
    ensures
        r == has_byte(v@, b),
{
    proof {
        lemma_last_index_of(v@, b);
    }
    last_index_of(v, b).is_some()
}

/// String equality, stated over the characters.
pub fn str_eq(s: &str, t: &str) -> (r: bool)
    ensures
        r == (s@ == t@),
{
    proof {
        vstd::utf8::encode_utf8_decode_utf8(s@);
        vstd::utf8::encode_utf8_decode_utf8(t@);
    }
    bytes_eq(s.as_bytes(), t.as_bytes())
}

/// Relies on std::str::from_utf8: it returns `Ok` exactly when the bytes are
/// valid UTF-8, and the resulting string is their decoding.
#[verifier::external_body]
pub fn bytes_as_str(v: &[u8]) -> (r: Option<&str>)
    ensures
        r is Some <==> vstd::utf8::valid_utf8(v@),
        r matches Some(s) ==> s@ == vstd::utf8::decode_utf8(v@),
{
    std::str::from_utf8(v).ok()
}

} // verus!
