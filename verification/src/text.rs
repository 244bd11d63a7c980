//! Text fields of the format: NUL-padded fixed-width names and
//! length-prefixed values, both decoded as UTF-8.

use vstd::prelude::*;

verus! {

/// What decoding a byte sequence as UTF-8 yields: the character sequence,
/// or nothing when the bytes are not valid UTF-8. The result is a function
/// of the bytes alone.
pub uninterp spec fn utf8_decode(bytes: Seq<u8>) -> Option<Seq<char>>;

/// A byte sequence with every NUL byte removed, the reading the format
/// gives its fixed-width NUL-padded name fields.
pub open spec fn strip_nul(s: Seq<u8>) -> Seq<u8> {
    s.filter(|b: u8| b != 0)
}

/// Relies on `String::from_utf8`: it succeeds exactly when the bytes are
/// valid UTF-8, and the characters it yields depend on the bytes alone.
#[verifier::external_body]
pub(crate) fn string_from_utf8(bytes: Vec<u8>) -> (r: Option<String>)
    ensures
        match r {
            Some(s) => utf8_decode(bytes@) == Some(s@),
            None => utf8_decode(bytes@) is None,
        },
{
    String::from_utf8(bytes).ok()
}

/// Copy of `v` with every NUL byte removed.
pub(crate) fn strip_nul_bytes(v: &Vec<u8>) -> (r: Vec<u8>)
    ensures
        r@ == strip_nul(v@),
{
    let mut out: Vec<u8> = Vec::new();
    let mut i: usize = 0;
    while i < v.len()
        invariant
            i <= v.len(),
            out@ == v@.subrange(0, i as int).filter(|b: u8| b != 0),
        decreases v.len() - i,
    {
        let b = v[i];
        proof {
            reveal_with_fuel(Seq::<_>::filter, 2);
            let pred = |b: u8| b != 0;
            let pre = v@.subrange(0, i as int);
            let ext = v@.subrange(0, i as int + 1);
            assert(ext.drop_last() =~= pre);
            assert(ext.last() == v@[i as int]);
            assert(ext.filter(pred) == if pred(v@[i as int]) {
                pre.filter(pred).push(v@[i as int])
            } else {
                pre.filter(pred)
            });
        }
        if b != 0 {
            out.push(b);
        }
        i += 1;
    }
    proof {
        assert(v@.subrange(0, v@.len() as int) =~= v@);
    }
    out
}

} // verus!
