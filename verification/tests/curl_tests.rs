use bee_crypto::curl::Curl;
use bee_crypto::{hash_with_mode, Error, HashMode, Sponge};

fn one_block_with(first: i8) -> Vec<i8> {
    let mut v = vec![0i8; 243];
    v[0] = first;
    v
}

/// The digest of a single all-zero block under Curl-P27 (and P81): the
/// uniform state is a fixed point of three rounds, so the output is all
/// zeros.
#[test]
fn curlp27_zero_block_vector() {
    let input = vec![0i8; 243];
    let mut out = vec![7i8; 243];
    hash_with_mode(HashMode::CURLP27, &input, &mut out).unwrap();
    assert_eq!(out, vec![0i8; 243]);
}

#[test]
fn curlp81_zero_block_vector() {
    let input = vec![0i8; 243];
    let mut out = vec![7i8; 243];
    hash_with_mode(HashMode::CURLP81, &input, &mut out).unwrap();
    assert_eq!(out, vec![0i8; 243]);
}

#[test]
fn curlp27_single_one_vector() {
    let expected: Vec<i8> = vec![
        1, 0, 0, 1, 0, 0, 0, 1, 1, 0, 0, 1, -1, -1, -1, -1, -1, -1, -1, -1, 0, 1, -1, 1, -1, 1, 0,
        1, 1, -1, 0, 1, 0, 1, -1, 0, 0, 1, 0, 0, 0, 0, 0, 0, 0, 0, 0, -1, -1, -1, 0, 0, 1, 0, 1,
        -1, 1, 1, 0, 1, -1, 0, 1, 1, 0, -1, -1, -1, 0, -1, -1, 0, -1, -1, 1, 1, -1, -1, -1, -1, 0,
        1, -1, 1, 0, -1, -1, 0, -1, 1, 0, -1, 0, -1, 1, 0, -1, 0, -1, 0, 0, 1, 1, 1, 1, -1, 0, 1,
        -1, -1, 1, -1, -1, 1, -1, -1, -1, -1, 0, 1, 1, 0, 0, -1, -1, -1, 1, 1, 1, 0, -1, 0, -1, 1,
        0, -1, -1, 0, 1, 0, -1, 0, -1, -1, -1, -1, 1, -1, 1, 0, 0, 0, -1, 1, 1, 0, 0, 1, 1, 1, -1,
        -1, 0, 1, 0, -1, -1, 0, 0, -1, 0, -1, 0, -1, 0, 0, 0, 1, 0, 1, 0, 1, 1, 0, 1, 1, -1, -1,
        -1, 1, -1, 1, 0, 1, 1, 0, 0, 0, 1, -1, 1, 1, -1, 1, -1, 0, 0, 0, 0, -1, 0, 0, 1, 0, 0, 0,
        -1, 0, 1, 0, -1, 1, 1, -1, 0, -1, 1, 1, 0, -1, 0, 1, 1, 1, 0, 0, -1, 0, 1, -1, 0, -1, 0,
    ];
    let input = one_block_with(1);
    let mut out = vec![0i8; 243];
    hash_with_mode(HashMode::CURLP27, &input, &mut out).unwrap();
    assert_eq!(out, expected);
}

#[test]
fn determinism_repeated_runs() {
    let input = one_block_with(1);
    let mut out1 = vec![0i8; 243];
    let mut out2 = vec![0i8; 243];
    let mut e1 = Curl::new(HashMode::CURLP81).unwrap();
    e1.absorb(&input).unwrap();
    e1.squeeze(&mut out1).unwrap();
    let mut e2 = Curl::new(HashMode::CURLP81).unwrap();
    e2.absorb(&input).unwrap();
    e2.squeeze(&mut out2).unwrap();
    assert_eq!(out1, out2);
}

#[test]
fn chunk_aligned_absorbs_associate() {
    let mut both = vec![0i8; 486];
    both[0] = 1;
    both[243 + 5] = -1;
    let (a, b) = both.split_at(243);

    let mut split_engine = Curl::new(HashMode::CURLP27).unwrap();
    split_engine.absorb(a).unwrap();
    split_engine.absorb(b).unwrap();
    let mut out_split = vec![0i8; 243];
    split_engine.squeeze(&mut out_split).unwrap();

    let mut joined_engine = Curl::new(HashMode::CURLP27).unwrap();
    joined_engine.absorb(&both).unwrap();
    let mut out_joined = vec![0i8; 243];
    joined_engine.squeeze(&mut out_joined).unwrap();

    assert_eq!(out_split, out_joined);
}

#[test]
fn reset_erases_history() {
    let history = vec![1i8; 243];
    let input = one_block_with(-1);

    let mut used = Curl::new(HashMode::CURLP27).unwrap();
    used.absorb(&history).unwrap();
    let mut scratch = vec![0i8; 243];
    used.squeeze(&mut scratch).unwrap();
    used.reset();
    used.absorb(&input).unwrap();
    let mut out_used = vec![0i8; 243];
    used.squeeze(&mut out_used).unwrap();

    let mut fresh = Curl::new(HashMode::CURLP27).unwrap();
    fresh.absorb(&input).unwrap();
    let mut out_fresh = vec![0i8; 243];
    fresh.squeeze(&mut out_fresh).unwrap();

    assert_eq!(out_used, out_fresh);
}

#[test]
fn double_reset_equals_single_reset() {
    let input = one_block_with(1);
    let mut once = Curl::new(HashMode::CURLP27).unwrap();
    once.absorb(&input).unwrap();
    once.reset();
    let mut twice = Curl::new(HashMode::CURLP27).unwrap();
    twice.absorb(&input).unwrap();
    twice.reset();
    twice.reset();
    let mut out_once = vec![0i8; 243];
    let mut out_twice = vec![0i8; 243];
    once.squeeze(&mut out_once).unwrap();
    twice.squeeze(&mut out_twice).unwrap();
    assert_eq!(out_once, out_twice);
}

#[test]
fn absorb_length_validation() {
    let mut curl = Curl::new(HashMode::CURLP27).unwrap();
    assert_eq!(curl.absorb(&[]), Ok(()));
    for n in [1usize, 242, 244, 487] {
        let bad = vec![0i8; n];
        assert_eq!(curl.absorb(&bad), Err(Error::InvalidInputLength(n)));
    }
    assert_eq!(curl.absorb(&vec![0i8; 243]), Ok(()));
    assert_eq!(curl.absorb(&vec![0i8; 486]), Ok(()));
}

#[test]
fn squeeze_length_validation() {
    let mut curl = Curl::new(HashMode::CURLP27).unwrap();
    for n in [1usize, 242, 244, 487] {
        let mut bad = vec![0i8; n];
        assert_eq!(curl.squeeze(&mut bad), Err(Error::InvalidOutputLength(n)));
    }
    let mut empty: Vec<i8> = Vec::new();
    assert_eq!(curl.squeeze(&mut empty), Ok(()));
    let mut ok = vec![0i8; 486];
    assert_eq!(curl.squeeze(&mut ok), Ok(()));
}

#[test]
fn mode_boundary() {
    assert!(Curl::with_rounds(27).is_ok());
    assert!(Curl::with_rounds(81).is_ok());
    for n in [0usize, 1, 26, 28, 80, 82, 243] {
        match Curl::with_rounds(n) {
            Err(Error::InvalidMode(m)) => assert_eq!(m, n),
            other => panic!("expected InvalidMode, got {:?}", other.is_ok()),
        }
    }
}

#[test]
fn with_rounds_matches_dispatch_modes() {
    let input = one_block_with(1);

    let mut by_rounds = Curl::with_rounds(27).unwrap();
    by_rounds.absorb(&input).unwrap();
    let mut out_rounds = vec![0i8; 243];
    by_rounds.squeeze(&mut out_rounds).unwrap();

    let mut out_mode = vec![0i8; 243];
    hash_with_mode(HashMode::CURLP27, &input, &mut out_mode).unwrap();

    assert_eq!(out_rounds, out_mode);
}

#[test]
fn round_counts_differ_in_output() {
    let input = one_block_with(1);
    let mut out27 = vec![0i8; 243];
    let mut out81 = vec![0i8; 243];
    hash_with_mode(HashMode::CURLP27, &input, &mut out27).unwrap();
    hash_with_mode(HashMode::CURLP81, &input, &mut out81).unwrap();
    assert_ne!(out27, out81);
}

#[test]
fn hash_with_mode_checks_output_length_first() {
    let input = vec![0i8; 5];
    let mut out = vec![0i8; 244];
    assert_eq!(
        hash_with_mode(HashMode::CURLP27, &input, &mut out),
        Err(Error::InvalidOutputLength(244))
    );
}

#[test]
fn hash_with_mode_propagates_input_error() {
    let input = vec![0i8; 5];
    let mut out = vec![0i8; 243];
    assert_eq!(
        hash_with_mode(HashMode::CURLP27, &input, &mut out),
        Err(Error::InvalidInputLength(5))
    );
}

#[test]
fn interleaved_engines_are_independent() {
    let x = one_block_with(1);
    let y = one_block_with(-1);

    let mut a = Curl::new(HashMode::CURLP27).unwrap();
    let mut b = Curl::new(HashMode::CURLP81).unwrap();
    a.absorb(&x).unwrap();
    b.absorb(&y).unwrap();
    let mut out_a = vec![0i8; 243];
    let mut out_b = vec![0i8; 243];
    a.squeeze(&mut out_a).unwrap();
    b.squeeze(&mut out_b).unwrap();

    let mut alone_a = Curl::new(HashMode::CURLP27).unwrap();
    alone_a.absorb(&x).unwrap();
    let mut out_alone_a = vec![0i8; 243];
    alone_a.squeeze(&mut out_alone_a).unwrap();

    let mut alone_b = Curl::new(HashMode::CURLP81).unwrap();
    alone_b.absorb(&y).unwrap();
    let mut out_alone_b = vec![0i8; 243];
    alone_b.squeeze(&mut out_alone_b).unwrap();

    assert_eq!(out_a, out_alone_a);
    assert_eq!(out_b, out_alone_b);
}

#[test]
fn empty_absorb_is_a_noop() {
    let mut touched = Curl::new(HashMode::CURLP27).unwrap();
    touched.absorb(&[]).unwrap();
    let mut out_touched = vec![0i8; 243];
    touched.squeeze(&mut out_touched).unwrap();

    let mut fresh = Curl::new(HashMode::CURLP27).unwrap();
    let mut out_fresh = vec![0i8; 243];
    fresh.squeeze(&mut out_fresh).unwrap();

    assert_eq!(out_touched, out_fresh);
}

#[test]
fn multi_chunk_squeeze_extends_single_chunks() {
    let input = one_block_with(1);

    let mut wide = Curl::new(HashMode::CURLP27).unwrap();
    wide.absorb(&input).unwrap();
    let mut out_wide = vec![0i8; 486];
    wide.squeeze(&mut out_wide).unwrap();

    let mut narrow = Curl::new(HashMode::CURLP27).unwrap();
    narrow.absorb(&input).unwrap();
    let mut first = vec![0i8; 243];
    let mut second = vec![0i8; 243];
    narrow.squeeze(&mut first).unwrap();
    narrow.squeeze(&mut second).unwrap();

    assert_eq!(&out_wide[..243], &first[..]);
    assert_eq!(&out_wide[243..], &second[..]);
}

#[test]
fn absorb_after_squeeze_reenters_absorption() {
    let input = one_block_with(1);
    let mut engine = Curl::new(HashMode::CURLP27).unwrap();
    engine.absorb(&input).unwrap();
    let mut out = vec![0i8; 243];
    engine.squeeze(&mut out).unwrap();
    assert_eq!(engine.absorb(&input), Ok(()));
    let mut again = vec![0i8; 243];
    assert_eq!(engine.squeeze(&mut again), Ok(()));
}

#[test]
fn default_engine_matches_curlp81() {
    let input = one_block_with(1);
    let mut by_default = Curl::default();
    by_default.absorb(&input).unwrap();
    let mut out_default = vec![0i8; 243];
    by_default.squeeze(&mut out_default).unwrap();

    let mut out_mode = vec![0i8; 243];
    hash_with_mode(HashMode::CURLP81, &input, &mut out_mode).unwrap();
    assert_eq!(out_default, out_mode);
}
