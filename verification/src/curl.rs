//! The Curl engine: a substitution-permutation sponge over 729 trits.
//!
//! The state is three 243-trit blocks (729 trits in all), held as balanced
//! trits. One round replaces every position `i` with an S-box lookup of two
//! neighbouring positions taken from a fixed index walk that steps 364
//! positions (modulo 729) through the state; a permutation applies the
//! round 27 or 81 times, as selected at construction. Absorbing copies a
//! 243-trit chunk over the first block and permutes once per chunk;
//! squeezing copies the first block out and permutes once per chunk.

use vstd::prelude::*;

use crate::codec::{all_trits, is_trit};
use crate::{mode_rounds, Error, HashMode, Sponge, BLOCK_LENGTH};

verus! {

/// The number of trits in the Curl state.
pub const STATE_LENGTH: usize = 729;

/// The Curl S-box: the new trit produced from a pair of current trits.
///
/// This is the classic Curl truth table, usually written as the array
/// `[1, 0, -1, 2, 1, -1, 0, 2, -1, 1, 0]` indexed by `a + 4*b + 5`.
pub open spec fn curl_truth(a: i8, b: i8) -> i8 {
    if b == -1 {
        if a == -1 {
            1
        } else if a == 0 {
            0
        } else {
            -1i8
        }
    } else if b == 0 {
        if a == -1 {
            1
        } else if a == 0 {
            -1i8
        } else {
            0
        }
    } else {
        if a == -1 {
            -1i8
        } else if a == 0 {
            1
        } else {
            0
        }
    }
}

/// The index walk of one Curl round: position `k` of the walk, starting at
/// 0 and stepping by 364 forward or 365 back, which is a step of 364
/// modulo 729.
pub open spec fn curl_walk(k: nat) -> int
    decreases k,
{
    if k == 0 {
        0
    } else {
        let p = curl_walk((k - 1) as nat);
        if p < 365 {
            p + 364
        } else {
            p - 365
        }
    }
}

/// The walk never leaves the state.
pub proof fn lemma_curl_walk_in_bounds(k: nat)
    ensures
        0 <= curl_walk(k) < 729,
    decreases k,
{
    if k > 0 {
        lemma_curl_walk_in_bounds((k - 1) as nat);
    }
}

/// One Curl round: every position is the S-box of the two walk positions
/// `k` and `k + 1`.
pub open spec fn curl_round(s: Seq<i8>) -> Seq<i8> {
    Seq::new(729, |i: int| curl_truth(s[curl_walk(i as nat)], s[curl_walk((i + 1) as nat)]))
}

/// The Curl permutation: `rounds` sequential applications of the round,
/// each consuming the previous round's fully materialized output.
pub open spec fn curl_permute(s: Seq<i8>, rounds: nat) -> Seq<i8>
    decreases rounds,
{
    if rounds == 0 {
        s
    } else {
        curl_permute(curl_round(s), (rounds - 1) as nat)
    }
}

/// A 243-trit chunk written over the first block of the state.
pub open spec fn with_rate(s: Seq<i8>, chunk: Seq<i8>) -> Seq<i8> {
    chunk + s.skip(243)
}

/// The state after absorbing `input` chunk by chunk: each 243-trit chunk
/// is copied over the first block and followed by one permutation.
pub open spec fn curl_absorbed(rounds: nat, s: Seq<i8>, input: Seq<i8>) -> Seq<i8>
    decreases input.len(),
{
    if input.len() < 243 {
        s
    } else {
        curl_absorbed(rounds, curl_permute(with_rate(s, input.take(243)), rounds), input.skip(243))
    }
}

/// The output of squeezing `n` chunks: the first block of the state, then
/// one permutation per further chunk.
pub open spec fn curl_squeezed(rounds: nat, s: Seq<i8>, n: nat) -> Seq<i8>
    decreases n,
{
    if n == 0 {
        Seq::empty()
    } else {
        s.take(243) + curl_squeezed(rounds, curl_permute(s, rounds), (n - 1) as nat)
    }
}

/// The state after squeezing `n` chunks (the permutation runs once per
/// squeezed chunk, after the chunk is copied out).
pub open spec fn curl_squeezed_state(rounds: nat, s: Seq<i8>, n: nat) -> Seq<i8>
    decreases n,
{
    if n == 0 {
        s
    } else {
        curl_squeezed_state(rounds, curl_permute(s, rounds), (n - 1) as nat)
    }
}

/// The all-zero initial state.
pub open spec fn curl_initial() -> Seq<i8> {
    Seq::new(729, |i: int| 0i8)
}

/// A round always yields trits, whatever the input holds.
pub proof fn lemma_curl_round_wf(s: Seq<i8>)
    ensures
        curl_round(s).len() == 729,
        all_trits(curl_round(s)),
{
}

/// The permutation keeps the state 729 trits long and in the trit domain.
pub proof fn lemma_curl_permute_wf(s: Seq<i8>, rounds: nat)
    requires
        s.len() == 729,
        all_trits(s),
    ensures
        curl_permute(s, rounds).len() == 729,
        all_trits(curl_permute(s, rounds)),
    decreases rounds,
{
    if rounds > 0 {
        lemma_curl_round_wf(s);
        lemma_curl_permute_wf(curl_round(s), (rounds - 1) as nat);
    }
}

/// The executable S-box lookup.
fn truth_lookup(a: i8, b: i8) -> (r: i8)
    requires
        is_trit(a),
        is_trit(b),
    ensures
        r == curl_truth(a, b),
        is_trit(r),
{
    if b == -1 {
        if a == -1 {
            1
        } else if a == 0 {
            0
        } else {
            -1
        }
    } else if b == 0 {
        if a == -1 {
            1
        } else if a == 0 {
            -1
        } else {
            0
        }
    } else {
        if a == -1 {
            -1
        } else if a == 0 {
            1
        } else {
            0
        }
    }
}

/// The substitution-permutation sponge with a configurable round count.
#[derive(Clone, Debug)]
pub struct Curl {
    state: Vec<i8>,
    rounds: usize,
}

impl Curl {
    /// Well-formedness: 729 state trits in the trit domain, and one of the
    /// two supported round counts.
    pub closed spec fn wf(&self) -> bool {
        &&& self.state@.len() == 729
        &&& all_trits(self.state@)
        &&& (self.rounds == 27 || self.rounds == 81)
    }

    /// The logical state.
    pub closed spec fn state_view(&self) -> Seq<i8> {
        self.state@
    }

    /// The configured round count.
    pub closed spec fn round_count(&self) -> nat {
        self.rounds as nat
    }

    /// Constructs the engine for a given round count, zero-initialized.
    /// Exactly 27 and 81 rounds are supported; any other count is rejected
    /// with [`Error::InvalidMode`].
    pub fn with_rounds(rounds: usize) -> (r: Result<Curl, Error>)
        ensures
            r is Ok <==> (rounds == 27 || rounds == 81),
            r matches Ok(c) ==> c.wf() && c.round_count() == rounds && c.state_view()
                == curl_initial(),
            !(rounds == 27 || rounds == 81) ==> r == Err::<Curl, Error>(Error::InvalidMode(rounds)),
    {
        if rounds != 27 && rounds != 81 {
            return Err(Error::InvalidMode(rounds));
        }
        let mut state: Vec<i8> = Vec::new();
        let mut i: usize = 0;
        while i < STATE_LENGTH
            invariant
                i <= 729,
                state@.len() == i,
                forall|j: int| 0 <= j < i ==> state@[j] == 0i8,
            decreases 729 - i,
        {
            state.push(0);
            i = i + 1;
        }
        proof {
            assert(state@ =~= curl_initial());
        }
        Ok(Curl { state, rounds })
    }

    /// Constructs the engine for a dispatch mode; both modes are
    /// supported, so this cannot fail.
    pub fn new(mode: HashMode) -> (r: Result<Curl, Error>)
        ensures
            r matches Ok(c) && c.wf() && c.round_count() == mode_rounds(mode) && c.state_view()
                == curl_initial(),
    {
        match mode {
            HashMode::CURLP27 => Curl::with_rounds(27),
            HashMode::CURLP81 => Curl::with_rounds(81),
        }
    }

    /// Runs the permutation on the state: `self.rounds` rounds, each
    /// materializing a fresh state before it becomes the next round's
    /// input.
    fn permute(&mut self)
        requires
            old(self).wf(),
        ensures
            final(self).wf(),
            final(self).rounds == old(self).rounds,
            final(self).state@ == curl_permute(old(self).state@, old(self).rounds as nat),
    {
        let rounds = self.rounds;
        let ghost orig = self.state@;
        let mut r: usize = 0;
        while r < rounds
            invariant
                self.wf(),
                self.rounds == rounds,
                r <= rounds,
                curl_permute(self.state@, (rounds - r) as nat) == curl_permute(orig, rounds as nat),
            decreases rounds - r,
        {
            let ghost before = self.state@;
            let mut next: Vec<i8> = Vec::new();
            let mut index: usize = 0;
            let mut i: usize = 0;
            proof {
                lemma_curl_walk_in_bounds(0);
            }
            while i < STATE_LENGTH
                invariant
                    self.wf(),
                    self.state@ == before,
                    i <= 729,
                    next@.len() == i,
                    index == curl_walk(i as nat),
                    0 <= index < 729,
                    forall|j: int|
                        0 <= j < i ==> next@[j] == curl_truth(
                            before[curl_walk(j as nat)],
                            before[curl_walk((j + 1) as nat)],
                        ),
                    all_trits(next@),
                decreases 729 - i,
            {
                let a = self.state[index];
                if index < 365 {
                    index = index + 364;
                } else {
                    index = index - 365;
                }
                let b = self.state[index];
                proof {
                    lemma_curl_walk_in_bounds((i + 1) as nat);
                }
                next.push(truth_lookup(a, b));
                i = i + 1;
            }
            proof {
                assert(next@ =~= curl_round(before));
            }
            self.state = next;
            r = r + 1;
        }
    }

    /// Clears the state back to all zeros; the round count is kept.
    fn reset_state(&mut self)
        requires
            old(self).wf(),
        ensures
            final(self).wf(),
            final(self).round_count() == old(self).round_count(),
            final(self).state_view() == curl_initial(),
    {
        let mut i: usize = 0;
        while i < STATE_LENGTH
            invariant
                old(self).wf(),
                self.rounds == old(self).rounds,
                self.state@.len() == 729,
                all_trits(self.state@),
                i <= 729,
                forall|j: int| 0 <= j < i ==> self.state@[j] == 0i8,
            decreases 729 - i,
        {
            self.state.set(i, 0);
            i = i + 1;
        }
        proof {
            assert(self.state@ =~= curl_initial());
        }
    }
}

/// Chunk-alignment associativity: absorbing two chunk-aligned buffers in
/// turn leaves the same state as absorbing their concatenation, because
/// each 243-trit chunk triggers exactly one permutation either way.
pub proof fn lemma_curl_absorb_append(rounds: nat, s: Seq<i8>, a: Seq<i8>, b: Seq<i8>)
    requires
        a.len() % 243 == 0,
        b.len() % 243 == 0,
    ensures
        curl_absorbed(rounds, curl_absorbed(rounds, s, a), b) == curl_absorbed(rounds, s, a + b),
    decreases a.len(),
{
    if a.len() == 0 {
        assert(a + b =~= b);
    } else {
        if a.len() < 243 {
            vstd::arithmetic::div_mod::lemma_small_mod(a.len(), 243);
        }
        assert(a.len() >= 243);
        assert((a + b).take(243) =~= a.take(243));
        assert((a + b).skip(243) =~= a.skip(243) + b);
        vstd::arithmetic::div_mod::lemma_mod_sub_multiples_vanish(a.len() as int, 243);
        assert(a.skip(243).len() % 243 == 0);
        lemma_curl_absorb_append(
            rounds,
            curl_permute(with_rate(s, a.take(243)), rounds),
            a.skip(243),
            b,
        );
    }
}

/// Determinism: absorbing the same input into equal states under the same
/// round count and squeezing the same number of chunks yields the same
/// output and the same final state.
pub proof fn lemma_curl_deterministic(rounds: nat, s1: Seq<i8>, s2: Seq<i8>, input: Seq<i8>, n: nat)
    requires
        s1 == s2,
    ensures
        curl_squeezed(rounds, curl_absorbed(rounds, s1, input), n) == curl_squeezed(
            rounds,
            curl_absorbed(rounds, s2, input),
            n,
        ),
        curl_squeezed_state(rounds, curl_absorbed(rounds, s1, input), n) == curl_squeezed_state(
            rounds,
            curl_absorbed(rounds, s2, input),
            n,
        ),
{
}

/// Reset erases history: a reset leaves the all-zero state whatever the
/// engine did before, so the digest computed after a reset depends on the
/// freshly absorbed input alone.
pub proof fn lemma_curl_reset_erases_history(rounds: nat, s1: Seq<i8>, s2: Seq<i8>, x: Seq<i8>, n: nat)
    requires
        s1 == curl_initial(),
        s2 == curl_initial(),
    ensures
        curl_squeezed(rounds, curl_absorbed(rounds, s1, x), n) == curl_squeezed(
            rounds,
            curl_absorbed(rounds, s2, x),
            n,
        ),
{
}

/// Squeezed output consists of trits whenever the state does.
pub proof fn lemma_curl_squeezed_trits(rounds: nat, s: Seq<i8>, n: nat)
    requires
        s.len() == 729,
        all_trits(s),
    ensures
        curl_squeezed(rounds, s, n).len() == 243 * n,
        all_trits(curl_squeezed(rounds, s, n)),
    decreases n,
{
    if n > 0 {
        lemma_curl_permute_wf(s, rounds);
        lemma_curl_squeezed_trits(rounds, curl_permute(s, rounds), (n - 1) as nat);
    }
}

impl Default for Curl {
    /// A fresh 81-round engine with an all-zero state.
    fn default() -> (c: Curl)
        ensures
            c.wf(),
            c.round_count() == 81,
            c.state_view() == curl_initial(),
    {
        match Curl::with_rounds(81) {
            Ok(c) => c,
            Err(_) => vstd::pervasive::unreached(),
        }
    }
}

impl Sponge for Curl {
    open spec fn inv(&self) -> bool {
        self.wf()
    }

    open spec fn cfg(&self) -> nat {
        self.round_count()
    }

    open spec fn st(&self) -> Seq<i8> {
        self.state_view()
    }

    open spec fn init_st() -> Seq<i8> {
        curl_initial()
    }

    open spec fn absorbed_st(cfg: nat, s: Seq<i8>, input: Seq<i8>) -> Seq<i8> {
        curl_absorbed(cfg, s, input)
    }

    open spec fn squeezed_out(cfg: nat, s: Seq<i8>, n: nat) -> Seq<i8> {
        curl_squeezed(cfg, s, n)
    }

    open spec fn squeezed_st(cfg: nat, s: Seq<i8>, n: nat) -> Seq<i8> {
        curl_squeezed_state(cfg, s, n)
    }

    fn absorb(&mut self, trits: &[i8]) -> (r: Result<(), Error>) {
        if trits.len() % BLOCK_LENGTH != 0 {
            return Err(Error::InvalidInputLength(trits.len()));
        }
        let ghost orig = self.state@;
        let ghost input = trits@;
        let chunks = trits.len() / BLOCK_LENGTH;
        let total = trits.len();
        proof {
            vstd::arithmetic::div_mod::lemma_fundamental_div_mod(input.len() as int, 243);
            assert(input.skip(0) =~= input);
        }
        let mut c: usize = 0;
        let mut offset: usize = 0;
        while c < chunks
            invariant
                self.wf(),
                self.rounds == old(self).rounds,
                all_trits(input),
                trits@ == input,
                total == input.len(),
                input.len() == 243 * chunks,
                c <= chunks,
                offset == 243 * c,
                curl_absorbed(self.rounds as nat, self.state@, input.skip(offset as int))
                    == curl_absorbed(self.rounds as nat, orig, input),
            decreases chunks - c,
        {
            let ghost pre = self.state@;
            let mut j: usize = 0;
            while j < BLOCK_LENGTH
                invariant
                    all_trits(input),
                    trits@ == input,
                    input.len() == 243 * chunks,
                    c < chunks,
                    offset == 243 * c,
                    j <= 243,
                    self.rounds == old(self).rounds,
                    self.wf(),
                    forall|k: int| 0 <= k < j ==> self.state@[k] == input[offset + k],
                    forall|k: int| j <= k < 729 ==> self.state@[k] == pre[k],
                decreases 243 - j,
            {
                self.state.set(j, trits[offset + j]);
                j = j + 1;
            }
            proof {
                assert(self.state@ =~= with_rate(pre, input.subrange(offset as int, offset + 243)));
                assert(input.skip(offset as int).take(243) =~= input.subrange(
                    offset as int,
                    offset + 243,
                ));
                assert(input.skip(offset as int).skip(243) =~= input.skip(offset + 243));
                assert(input.skip(offset as int).len() >= 243);
                assert(offset + 243 <= total);
            }
            self.permute();
            c = c + 1;
            offset = offset + 243;
        }
        proof {
            assert(input.skip(input.len() as int) =~= Seq::<i8>::empty());
        }
        Ok(())
    }

    fn squeeze(&mut self, out: &mut [i8]) -> (r: Result<(), Error>) {
        let n = out.len();
        if n % BLOCK_LENGTH != 0 {
            return Err(Error::InvalidOutputLength(n));
        }
        let ghost orig = self.state@;
        let chunks = n / BLOCK_LENGTH;
        proof {
            vstd::arithmetic::div_mod::lemma_fundamental_div_mod(n as int, 243);
        }
        let mut c: usize = 0;
        let mut offset: usize = 0;
        while c < chunks
            invariant
                self.wf(),
                self.rounds == old(self).rounds,
                out@.len() == n,
                n == 243 * chunks,
                c <= chunks,
                offset == 243 * c,
                forall|k: int| 0 <= k < offset ==> is_trit(#[trigger] out@[k]),
                curl_squeezed(self.rounds as nat, orig, chunks as nat) == out@.take(offset as int)
                    + curl_squeezed(self.rounds as nat, self.state@, (chunks - c) as nat),
                curl_squeezed_state(self.rounds as nat, orig, chunks as nat)
                    == curl_squeezed_state(self.rounds as nat, self.state@, (chunks - c) as nat),
            decreases chunks - c,
        {
            let ghost out_pre = out@;
            let ghost pre = self.state@;
            let mut j: usize = 0;
            while j < BLOCK_LENGTH
                invariant
                    self.wf(),
                    self.rounds == old(self).rounds,
                    self.state@ == pre,
                    out@.len() == n,
                    n == 243 * chunks,
                    c < chunks,
                    offset == 243 * c,
                    j <= 243,
                    forall|k: int| 0 <= k < offset ==> out@[k] == out_pre[k],
                    forall|k: int| offset <= k < offset + j ==> out@[k] == pre[k - offset],
                    forall|k: int| offset + j <= k < n ==> out@[k] == out_pre[k],
                decreases 243 - j,
            {
                out[offset + j] = self.state[j];
                j = j + 1;
            }
            proof {
                assert(out@.take(offset + 243) =~= out_pre.take(offset as int) + pre.take(243));
                assert(out@.take(offset as int) =~= out_pre.take(offset as int));
            }
            self.permute();
            proof {
                assert forall|k: int| 0 <= k < offset + 243 implies is_trit(
                    #[trigger] out@[k],
                ) by {
                    if k < offset {
                        assert(out@[k] == out_pre[k]);
                        assert(is_trit(out_pre[k]));
                    } else {
                        assert(out@[k] == pre[k - offset]);
                        assert(is_trit(pre[k - offset]));
                    }
                }
            }
            c = c + 1;
            offset = offset + 243;
        }
        proof {
            assert(out@.take(offset as int) =~= out@);
            assert(out@ + curl_squeezed(self.rounds as nat, self.state@, 0) =~= out@);
        }
        Ok(())
    }

    fn reset(&mut self) {
        self.reset_state();
    }
}

} // verus!
