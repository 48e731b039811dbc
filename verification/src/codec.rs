//! The trit domains and the codec between them.
//!
//! A logical trit is a balanced ternary digit, an `i8` in `{-1, 0, 1}`;
//! this is the representation the Curl engine and the [`crate::Sponge`]
//! trait work on. The packed representation is an unbalanced `u8` in
//! `{0, 1, 2}`, used by the Troika engine. The codec translates between
//! the two: `0 <-> 0`, `1 <-> 1`, `-1 <-> 2`. Decoding a byte outside the
//! packed domain fails with [`Error::InvalidEncoding`].

use vstd::prelude::*;

use crate::Error;

verus! {

/// Whether `t` is a balanced trit.
pub open spec fn is_trit(t: i8) -> bool {
    t == -1 || t == 0 || t == 1
}

/// Whether every element of `s` is a balanced trit.
pub open spec fn all_trits(s: Seq<i8>) -> bool {
    forall|i: int| 0 <= i < s.len() ==> is_trit(#[trigger] s[i])
}

/// Whether `t` is a packed (unbalanced) trit.
pub open spec fn is_utrit(t: u8) -> bool {
    t < 3
}

/// Whether every element of `s` is a packed trit.
pub open spec fn all_utrits(s: Seq<u8>) -> bool {
    forall|i: int| 0 <= i < s.len() ==> is_utrit(#[trigger] s[i])
}

/// The packed form of a balanced trit.
pub open spec fn encoded(t: i8) -> u8 {
    if t == 0 {
        0
    } else if t == 1 {
        1
    } else {
        2
    }
}

/// The balanced form of a packed trit.
pub open spec fn decoded(w: u8) -> i8 {
    if w == 0 {
        0
    } else if w == 1 {
        1
    } else {
        -1i8
    }
}

/// Packs one balanced trit. Out-of-domain values are forbidden by
/// contract: the caller must never construct them.
pub fn encode_trit(t: i8) -> (r: u8)
    requires
        is_trit(t),
    ensures
        r == encoded(t),
        is_utrit(r),
        decoded(r) == t,
{
    if t == 0 {
        0
    } else if t == 1 {
        1
    } else {
        2
    }
}

/// Unpacks one byte into a balanced trit, rejecting any byte outside the
/// packed domain.
pub fn decode_trit(w: u8) -> (r: Result<i8, Error>)
    ensures
        r is Ok <==> is_utrit(w),
        is_utrit(w) ==> r == Ok::<i8, Error>(decoded(w)) && is_trit(decoded(w)) && encoded(
            decoded(w),
        ) == w,
        !is_utrit(w) ==> r == Err::<i8, Error>(Error::InvalidEncoding(w)),
{
    if w == 0 {
        Ok(0)
    } else if w == 1 {
        Ok(1)
    } else if w == 2 {
        Ok(-1)
    } else {
        Err(Error::InvalidEncoding(w))
    }
}

/// Packs a whole buffer of balanced trits, element by element.
pub fn encode_trits(trits: &[i8]) -> (r: Vec<u8>)
    requires
        all_trits(trits@),
    ensures
        r@.len() == trits@.len(),
        forall|i: int| 0 <= i < trits@.len() ==> r@[i] == encoded(#[trigger] trits@[i]),
        all_utrits(r@),
{
    let mut out: Vec<u8> = Vec::new();
    let mut i: usize = 0;
    while i < trits.len()
        invariant
            all_trits(trits@),
            i <= trits@.len(),
            out@.len() == i,
            forall|j: int| 0 <= j < i ==> out@[j] == encoded(#[trigger] trits@[j]),
            all_utrits(out@),
        decreases trits@.len() - i,
    {
        out.push(encode_trit(trits[i]));
        i = i + 1;
    }
    out
}

/// Unpacks a whole buffer, failing on the first byte outside the packed
/// domain.
pub fn decode_trits(words: &[u8]) -> (r: Result<Vec<i8>, Error>)
    ensures
        r is Ok <==> all_utrits(words@),
        all_utrits(words@) ==> (r matches Ok(v) && v@.len() == words@.len() && (forall|i: int|
            0 <= i < words@.len() ==> v@[i] == decoded(#[trigger] words@[i])) && all_trits(v@)),
        r matches Err(e) ==> (exists|i: int|
            0 <= i < words@.len() && !is_utrit(#[trigger] words@[i]) && e == Error::InvalidEncoding(
                words@[i],
            )),
{
    let mut out: Vec<i8> = Vec::new();
    let mut i: usize = 0;
    while i < words.len()
        invariant
            i <= words@.len(),
            out@.len() == i,
            forall|j: int| 0 <= j < i ==> is_utrit(#[trigger] words@[j]),
            forall|j: int| 0 <= j < i ==> out@[j] == decoded(#[trigger] words@[j]),
            all_trits(out@),
        decreases words@.len() - i,
    {
        match decode_trit(words[i]) {
            Ok(t) => {
                out.push(t);
            },
            Err(e) => {
                return Err(e);
            },
        }
        i = i + 1;
    }
    Ok(out)
}

} // verus!
