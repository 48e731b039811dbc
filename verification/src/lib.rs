//! Ternary sponge hashing.
//!
//! This crate implements cryptographic sponge constructions over ternary
//! digits ("trits"). It provides two permutation engines: Curl, a
//! substitution-permutation sponge with a configurable round count (27 or
//! 81), and Troika, a ternary sponge with a fixed round count. Both absorb
//! and squeeze data in blocks of 243 trits.

use vstd::prelude::*;

pub mod codec;
pub mod curl;
pub mod troika;

pub use crate::curl::Curl;
pub use crate::troika::Troika;

use crate::codec::all_trits;

verus! {

/// The number of trits in one sponge block: every absorbed or squeezed
/// buffer must have a length that is a multiple of this.
pub const BLOCK_LENGTH: usize = 243;

/// The ways a sponge operation can fail. Length checks happen before any
/// state is touched, so a failed call leaves the engine unchanged.
#[derive(Clone, Copy, Debug, PartialEq, Eq, Structural)]
pub enum Error {
    /// The buffer handed to `absorb` does not have a length that is a
    /// multiple of 243; carries the offending length.
    InvalidInputLength(usize),
    /// The buffer handed to `squeeze` does not have a length that is a
    /// multiple of 243; carries the offending length.
    InvalidOutputLength(usize),
    /// An engine was constructed with an unsupported round count; carries
    /// the rejected count.
    InvalidMode(usize),
    /// A packed value falls outside the three-value trit domain; carries
    /// the rejected byte.
    InvalidEncoding(u8),
}

/// Mode selection for [`hash_with_mode`]: the two supported Curl variants.
#[derive(Clone, Copy, Debug, PartialEq, Eq, Structural)]
pub enum HashMode {
    /// Curl with 27 rounds
    CURLP27,
    /// Curl with 81 rounds
    CURLP81,
}

/// The round count a mode selects.
pub open spec fn mode_rounds(mode: HashMode) -> nat {
    match mode {
        HashMode::CURLP27 => 27,
        HashMode::CURLP81 => 81,
    }
}

/// The operational contract every sponge engine over balanced trits obeys.
///
/// An engine owns a fixed-size trit state (`st`), an immutable
/// configuration fixed at construction (`cfg`, the round count), and three
/// operations. `absorb` mixes a buffer in 243-trit chunks into the state,
/// running the engine's permutation once per chunk; `squeeze` fills a
/// buffer in 243-trit chunks from the state, likewise permuting once per
/// chunk; `reset` returns the state to the all-zero initial value. Both
/// buffer operations reject, without touching the state, any buffer whose
/// length is not a multiple of 243. Absorbing after a squeeze is
/// permitted and re-enters absorption on the current state.
///
/// The `absorbed_st`, `squeezed_out` and `squeezed_st` spec functions are
/// the engine's mathematical model; each implementation pins its
/// operations to them exactly, which makes every engine deterministic: the
/// result of any call is a function of the configuration, the prior state
/// and the arguments alone.
pub trait Sponge where Self: Default + Clone + Send + 'static {
    /// Well-formedness of the engine's state.
    spec fn inv(&self) -> bool;

    /// The immutable configuration (round count) chosen at construction.
    spec fn cfg(&self) -> nat;

    /// The logical trit state.
    spec fn st(&self) -> Seq<i8>;

    /// The all-zero initial state.
    spec fn init_st() -> Seq<i8>;

    /// The state after absorbing `input`, chunk by chunk.
    spec fn absorbed_st(cfg: nat, s: Seq<i8>, input: Seq<i8>) -> Seq<i8>;

    /// The output of squeezing `n` chunks from state `s`.
    spec fn squeezed_out(cfg: nat, s: Seq<i8>, n: nat) -> Seq<i8>;

    /// The state after squeezing `n` chunks from state `s`.
    spec fn squeezed_st(cfg: nat, s: Seq<i8>, n: nat) -> Seq<i8>;

    /// Absorb trits into the sponge, 243-trit chunk by chunk.
    ///
    /// * `trits` - A slice of trits whose length is a multiple of 243
    fn absorb(&mut self, trits: &[i8]) -> (r: Result<(), Error>)
        requires
            old(self).inv(),
            all_trits(trits@),
        ensures
            final(self).inv(),
            final(self).cfg() == old(self).cfg(),
            r is Ok <==> trits@.len() % 243 == 0,
            trits@.len() % 243 == 0 ==> final(self).st() == Self::absorbed_st(
                old(self).cfg(),
                old(self).st(),
                trits@,
            ),
            trits@.len() % 243 != 0 ==> final(self).st() == old(self).st() && r == Err::<
                (),
                Error,
            >(Error::InvalidInputLength(trits@.len() as usize)),
    ;

    /// Squeeze trits out of the sponge and copy them into `out`, 243-trit
    /// chunk by chunk.
    ///
    /// * `out` - A slice of trits whose length is a multiple of 243
    fn squeeze(&mut self, out: &mut [i8]) -> (r: Result<(), Error>)
        requires
            old(self).inv(),
        ensures
            final(self).inv(),
            final(self).cfg() == old(self).cfg(),
            final(out)@.len() == old(out)@.len(),
            r is Ok <==> old(out)@.len() % 243 == 0,
            old(out)@.len() % 243 == 0 ==> final(out)@ == Self::squeezed_out(
                old(self).cfg(),
                old(self).st(),
                old(out)@.len() / 243,
            ) && final(self).st() == Self::squeezed_st(
                old(self).cfg(),
                old(self).st(),
                old(out)@.len() / 243,
            ) && all_trits(final(out)@),
            old(out)@.len() % 243 != 0 ==> final(self).st() == old(self).st() && final(out)@ == old(
                out,
            )@ && r == Err::<(), Error>(Error::InvalidOutputLength(old(out)@.len() as usize)),
    ;

    /// Reset the sponge to its all-zero initial state; the configuration
    /// is kept.
    fn reset(&mut self)
        requires
            old(self).inv(),
        ensures
            final(self).inv(),
            final(self).cfg() == old(self).cfg(),
            final(self).st() == Self::init_st(),
    ;
}

/// Hashes `trits` into `out` with the Curl variant `mode` selects: the
/// selected engine is constructed fresh, absorbs `trits`, then squeezes
/// `out.len()` trits into `out`. Errors from either step are propagated
/// unchanged; an output buffer of invalid length is rejected before the
/// engine is built.
pub fn hash_with_mode(mode: HashMode, trits: &[i8], out: &mut [i8]) -> (r: Result<(), Error>)
    requires
        all_trits(trits@),
    ensures
        final(out)@.len() == old(out)@.len(),
        r is Ok <==> (old(out)@.len() % 243 == 0 && trits@.len() % 243 == 0),
        old(out)@.len() % 243 != 0 ==> r == Err::<(), Error>(
            Error::InvalidOutputLength(old(out)@.len() as usize),
        ) && final(out)@ == old(out)@,
        old(out)@.len() % 243 == 0 && trits@.len() % 243 != 0 ==> r == Err::<(), Error>(
            Error::InvalidInputLength(trits@.len() as usize),
        ) && final(out)@ == old(out)@,
        r is Ok ==> final(out)@ == crate::curl::curl_squeezed(
            mode_rounds(mode),
            crate::curl::curl_absorbed(mode_rounds(mode), crate::curl::curl_initial(), trits@),
            old(out)@.len() / 243,
        ) && all_trits(final(out)@),
{
    if out.len() % 243 != 0 {
        return Err(Error::InvalidOutputLength(out.len()));
    }
    match mode {
        HashMode::CURLP27 | HashMode::CURLP81 => {
            let mut curl = match crate::curl::Curl::new(mode) {
                Ok(c) => c,
                Err(_) => {
                    return Err(Error::InvalidMode(0));
                },
            };
            match curl.absorb(trits) {
                Ok(_) => {},
                Err(e) => {
                    return Err(e);
                },
            }
            match curl.squeeze(out) {
                Ok(_) => {},
                Err(e) => {
                    return Err(e);
                },
            }
        },
    }
    Ok(())
}

} // verus!
