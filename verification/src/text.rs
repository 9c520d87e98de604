//! Text as the engine compares it: equal where the characters are equal,
//! and ordered byte by byte over the UTF-8 encoding, which is how the
//! engine sorts a text column of a store that it encodes as UTF-8.

use vstd::prelude::*;
use vstd::string::StringSliceAdditionalSpecFns;
use vstd::utf8::{encode_utf8, encode_utf8_decode_utf8};

verus! {

/// Whether two texts hold the same characters.
pub fn text_equals(a: &str, b: &str) -> (same: bool)
    ensures
        same == (a@ == b@),
{
    let left = a.as_bytes();
    let right = b.as_bytes();
    proof {
        encode_utf8_decode_utf8(a@);
        encode_utf8_decode_utf8(b@);
    }
    if left.len() != right.len() {
        return false;
    }
    let mut i: usize = 0;
    while i < left.len()
        invariant
            i <= left.len(),
            left.len() == right.len(),
            forall|k: int| 0 <= k < i ==> left@[k] == right@[k],
            left@ == encode_utf8(a@),
            right@ == encode_utf8(b@),
            vstd::utf8::decode_utf8(encode_utf8(a@)) == a@,
            vstd::utf8::decode_utf8(encode_utf8(b@)) == b@,
        decreases left.len() - i,
    {
        if left[i] != right[i] {
            return false;
        }
        i += 1;
    }
    assert(left@ =~= right@);
    true
}

/// Whether `a` and `b` agree on their first `k` bytes and part there in
/// favour of `a`: either `a` ends at `k`, or its next byte is the smaller.
pub open spec fn parts_at(a: Seq<u8>, b: Seq<u8>, k: int) -> bool {
    &&& 0 <= k <= a.len()
    &&& k <= b.len()
    &&& a.take(k) == b.take(k)
    &&& k == a.len() || (k < b.len() && a[k] < b[k])
}

/// The order of byte strings: byte by byte, a prefix before its extensions.
pub open spec fn bytes_le(a: Seq<u8>, b: Seq<u8>) -> bool {
    exists|k: int| parts_at(a, b, k)
}

/// The order of texts: that of their UTF-8 encodings.
pub open spec fn text_le(a: Seq<char>, b: Seq<char>) -> bool {
    bytes_le(encode_utf8(a), encode_utf8(b))
}

/// Whether `a` sorts before `b` or equals it.
pub fn text_at_most(a: &str, b: &str) -> (ordered: bool)
    ensures
        ordered == text_le(a@, b@),
{
    let left = a.as_bytes();
    let right = b.as_bytes();
    let mut i: usize = 0;
    while i < left.len() && i < right.len()
        invariant
            i <= left.len(),
            i <= right.len(),
            left@.take(i as int) == right@.take(i as int),
            left@ == encode_utf8(a@),
            right@ == encode_utf8(b@),
        decreases left.len() - i,
    {
        if left[i] != right[i] {
            proof {
                if left[i as int] < right[i as int] {
                    assert(parts_at(left@, right@, i as int));
                } else {
                    assert forall|k: int| !parts_at(left@, right@, k) by {
                        if parts_at(left@, right@, k) {
                            if k > i {
                                assert(left@.take(k)[i as int] == right@.take(k)[i as int]);
                            } else if k < i {
                                assert(left@.take(i as int)[k] == right@.take(i as int)[k]);
                            }
                        }
                    }
                }
            }
            return left[i] < right[i];
        }
        assert(left@.take(i + 1) =~= left@.take(i as int).push(left@[i as int]));
        assert(right@.take(i + 1) =~= right@.take(i as int).push(right@[i as int]));
        i += 1;
    }
    proof {
        if left.len() <= right.len() {
            assert(parts_at(left@, right@, i as int));
        } else {
            assert forall|k: int| !parts_at(left@, right@, k) by {
                if parts_at(left@, right@, k) {
                    if k < i {
                        assert(left@.take(i as int)[k] == right@.take(i as int)[k]);
                    }
                }
            }
        }
    }
    left.len() <= right.len()
}

/// Every text is at most itself.
pub proof fn text_le_is_reflexive(a: Seq<char>)
    ensures
        text_le(a, a),
{
    let bytes = encode_utf8(a);
    assert(parts_at(bytes, bytes, bytes.len() as int));
}

/// Two texts of which each is at most the other are one text.
pub proof fn text_le_is_antisymmetric(a: Seq<char>, b: Seq<char>)
    requires
        text_le(a, b),
        text_le(b, a),
    ensures
        a == b,
{
    let x = encode_utf8(a);
    let y = encode_utf8(b);
    let k = choose|k: int| parts_at(x, y, k);
    let m = choose|m: int| parts_at(y, x, m);
    if k < m {
        assert(y.take(m)[k] == x.take(m)[k]);
    } else if m < k {
        assert(x.take(k)[m] == y.take(k)[m]);
    }
    assert(k == m);
    assert(x.take(k) =~= x);
    assert(y.take(k) =~= y);
    encode_utf8_decode_utf8(a);
    encode_utf8_decode_utf8(b);
}

/// A text at most a second that is at most a third is at most the third.
pub proof fn text_le_is_transitive(a: Seq<char>, b: Seq<char>, c: Seq<char>)
    requires
        text_le(a, b),
        text_le(b, c),
    ensures
        text_le(a, c),
{
    let x = encode_utf8(a);
    let y = encode_utf8(b);
    let z = encode_utf8(c);
    let k = choose|k: int| parts_at(x, y, k);
    let m = choose|m: int| parts_at(y, z, m);
    if k < m {
        assert(x.take(k) =~= z.take(k)) by {
            assert forall|i: int| 0 <= i < k implies x[i] == z[i] by {
                assert(x.take(k)[i] == y.take(k)[i]);
                assert(y.take(m)[i] == z.take(m)[i]);
            }
        }
        assert(y.take(m)[k] == z.take(m)[k]);
        assert(parts_at(x, z, k));
    } else {
        assert(x.take(m) =~= z.take(m)) by {
            assert forall|i: int| 0 <= i < m implies x[i] == z[i] by {
                assert(x.take(k)[i] == y.take(k)[i]);
                assert(y.take(m)[i] == z.take(m)[i]);
            }
        }
        if m < k {
            assert(x.take(k)[m] == y.take(k)[m]);
        }
        assert(parts_at(x, z, m));
    }
}

} // verus!
