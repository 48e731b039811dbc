use bee_crypto::curl::Curl;
use bee_crypto::troika::Troika;
use bee_crypto::{Error, HashMode, Sponge};

fn one_block_with(first: u8) -> Vec<u8> {
    let mut v = vec![0u8; 243];
    v[0] = first;
    v
}

#[test]
fn troika_zero_block_vector() {
    let expected: Vec<u8> = vec![
        0, 2, 2, 1, 2, 1, 0, 1, 2, 1, 1, 1, 1, 2, 2, 1, 1, 1, 0, 1, 2, 1, 2, 1, 2, 1, 2, 1, 2, 2,
        1, 1, 1, 0, 1, 0, 2, 1, 0, 0, 0, 1, 2, 0, 2, 1, 0, 0, 2, 1, 1, 1, 1, 1, 2, 0, 1, 0, 2, 1,
        1, 2, 0, 1, 1, 1, 1, 1, 2, 2, 0, 0, 2, 2, 2, 2, 0, 0, 2, 2, 2, 1, 2, 2, 0, 2, 1, 1, 2, 1,
        1, 1, 2, 2, 1, 1, 0, 0, 0, 2, 2, 2, 0, 2, 1, 1, 1, 1, 0, 0, 1, 0, 2, 0, 2, 0, 2, 0, 0, 0,
        0, 1, 1, 1, 0, 2, 1, 1, 1, 0, 2, 0, 0, 1, 0, 1, 0, 2, 0, 2, 2, 0, 0, 2, 2, 0, 1, 2, 1, 0,
        0, 1, 2, 1, 1, 0, 0, 1, 1, 0, 2, 1, 1, 0, 1, 2, 0, 0, 0, 1, 2, 2, 1, 1, 1, 0, 0, 2, 0, 1,
        1, 2, 1, 1, 2, 1, 0, 1, 2, 2, 2, 2, 1, 2, 0, 2, 2, 1, 2, 1, 2, 1, 2, 2, 1, 1, 2, 0, 2, 1,
        0, 1, 1, 1, 0, 2, 2, 0, 0, 2, 0, 2, 0, 1, 2, 0, 0, 2, 2, 1, 1, 2, 0, 1, 0, 0, 0, 0, 2, 0,
        2, 2, 2,
    ];
    let mut troika = Troika::new();
    troika.absorb(&vec![0u8; 243]).unwrap();
    let mut out = vec![0u8; 243];
    troika.squeeze(&mut out).unwrap();
    assert_eq!(out, expected);
}

#[test]
fn troika_all_ones_vector() {
    let expected: Vec<u8> = vec![
        0, 2, 1, 0, 0, 0, 2, 0, 2, 2, 2, 0, 0, 1, 1, 2, 1, 2, 2, 2, 0, 0, 2, 1, 1, 2, 2, 0, 1, 2,
        0, 0, 2, 1, 0, 2, 1, 0, 1, 0, 2, 2, 2, 2, 1, 2, 2, 0, 2, 2, 2, 2, 0, 0, 2, 0, 0, 2, 2, 2,
        0, 1, 2, 0, 1, 1, 1, 0, 2, 0, 1, 2, 0, 1, 1, 2, 0, 1, 1, 0, 2, 2, 2, 1, 0, 2, 2, 2, 2, 2,
        2, 0, 2, 2, 1, 0, 2, 2, 0, 2, 2, 1, 1, 2, 1, 1, 2, 1, 0, 0, 1, 1, 0, 1, 1, 1, 1, 1, 0, 0,
        0, 2, 0, 2, 0, 0, 0, 1, 1, 1, 2, 1, 0, 0, 2, 2, 1, 2, 1, 1, 2, 1, 2, 0, 2, 0, 1, 1, 2, 2,
        0, 2, 0, 2, 0, 0, 0, 1, 2, 1, 1, 0, 0, 0, 0, 1, 1, 2, 1, 1, 0, 0, 2, 1, 1, 2, 1, 1, 2, 1,
        2, 2, 0, 1, 1, 2, 0, 0, 0, 1, 2, 0, 0, 0, 0, 2, 0, 2, 1, 1, 2, 0, 0, 0, 0, 0, 0, 2, 1, 1,
        2, 1, 2, 2, 2, 0, 2, 0, 0, 2, 1, 2, 1, 1, 1, 0, 2, 2, 1, 1, 0, 0, 2, 0, 2, 1, 1, 0, 2, 0,
        1, 0, 2,
    ];
    let mut troika = Troika::new();
    troika.absorb(&vec![1u8; 243]).unwrap();
    let mut out = vec![0u8; 243];
    troika.squeeze(&mut out).unwrap();
    assert_eq!(out, expected);
}

#[test]
fn troika_determinism() {
    let input = one_block_with(2);
    let mut e1 = Troika::new();
    let mut e2 = Troika::new();
    e1.absorb(&input).unwrap();
    e2.absorb(&input).unwrap();
    let mut out1 = vec![0u8; 243];
    let mut out2 = vec![0u8; 243];
    e1.squeeze(&mut out1).unwrap();
    e2.squeeze(&mut out2).unwrap();
    assert_eq!(out1, out2);
}

#[test]
fn troika_absorb_length_validation() {
    let mut troika = Troika::new();
    assert_eq!(troika.absorb(&[]), Ok(()));
    for n in [1usize, 242, 244, 487] {
        let bad = vec![0u8; n];
        assert_eq!(troika.absorb(&bad), Err(Error::InvalidInputLength(n)));
    }
    assert_eq!(troika.absorb(&vec![0u8; 486]), Ok(()));
}

#[test]
fn troika_squeeze_length_validation() {
    let mut troika = Troika::new();
    for n in [1usize, 242, 244, 487] {
        let mut bad = vec![0u8; n];
        assert_eq!(troika.squeeze(&mut bad), Err(Error::InvalidOutputLength(n)));
    }
    let mut ok = vec![0u8; 243];
    assert_eq!(troika.squeeze(&mut ok), Ok(()));
}

#[test]
fn troika_chunk_aligned_absorbs_associate() {
    let mut both = vec![0u8; 486];
    both[0] = 1;
    both[243 + 7] = 2;
    let (a, b) = both.split_at(243);

    let mut split_engine = Troika::new();
    split_engine.absorb(a).unwrap();
    split_engine.absorb(b).unwrap();
    let mut out_split = vec![0u8; 243];
    split_engine.squeeze(&mut out_split).unwrap();

    let mut joined_engine = Troika::new();
    joined_engine.absorb(&both).unwrap();
    let mut out_joined = vec![0u8; 243];
    joined_engine.squeeze(&mut out_joined).unwrap();

    assert_eq!(out_split, out_joined);
}

#[test]
fn troika_reset_erases_history() {
    let history = vec![2u8; 243];
    let input = one_block_with(1);

    let mut used = Troika::new();
    used.absorb(&history).unwrap();
    let mut scratch = vec![0u8; 243];
    used.squeeze(&mut scratch).unwrap();
    used.reset();
    used.absorb(&input).unwrap();
    let mut out_used = vec![0u8; 243];
    used.squeeze(&mut out_used).unwrap();

    let mut fresh = Troika::new();
    fresh.absorb(&input).unwrap();
    let mut out_fresh = vec![0u8; 243];
    fresh.squeeze(&mut out_fresh).unwrap();

    assert_eq!(out_used, out_fresh);
}

#[test]
fn troika_default_matches_new() {
    let input = one_block_with(1);
    let mut by_default = Troika::default();
    by_default.absorb(&input).unwrap();
    let mut out_default = vec![0u8; 243];
    by_default.squeeze(&mut out_default).unwrap();

    let mut by_new = Troika::new();
    by_new.absorb(&input).unwrap();
    let mut out_new = vec![0u8; 243];
    by_new.squeeze(&mut out_new).unwrap();

    assert_eq!(out_default, out_new);
}

#[test]
fn troika_empty_absorb_is_a_noop() {
    let input = one_block_with(2);

    let mut touched = Troika::new();
    touched.absorb(&[]).unwrap();
    touched.absorb(&input).unwrap();
    let mut out_touched = vec![0u8; 243];
    touched.squeeze(&mut out_touched).unwrap();

    let mut fresh = Troika::new();
    fresh.absorb(&input).unwrap();
    let mut out_fresh = vec![0u8; 243];
    fresh.squeeze(&mut out_fresh).unwrap();

    assert_eq!(out_touched, out_fresh);
}

#[test]
fn troika_matches_independent_implementation() {
    let mut two_blocks = vec![0u8; 486];
    for (i, t) in two_blocks.iter_mut().enumerate() {
        *t = (i % 3) as u8;
    }

    for input in [vec![0u8; 243], vec![1u8; 243], one_block_with(2), two_blocks] {
        let mut ours = Troika::new();
        ours.absorb(&input).unwrap();
        let mut out_ours = vec![0u8; 486];
        ours.squeeze(&mut out_ours).unwrap();

        let mut theirs = troika::Troika::default();
        theirs.absorb(&input);
        let mut out_theirs = vec![0u8; 486];
        theirs.squeeze(&mut out_theirs);

        assert_eq!(out_ours, out_theirs);
    }
}

#[test]
fn troika_and_curl_are_independent() {
    let x = one_block_with(1);
    let mut y = vec![0i8; 243];
    y[0] = -1;

    let mut t = Troika::new();
    let mut c = Curl::new(HashMode::CURLP27).unwrap();
    t.absorb(&x).unwrap();
    c.absorb(&y).unwrap();
    let mut out_t = vec![0u8; 243];
    let mut out_c = vec![0i8; 243];
    t.squeeze(&mut out_t).unwrap();
    c.squeeze(&mut out_c).unwrap();

    let mut t_alone = Troika::new();
    t_alone.absorb(&x).unwrap();
    let mut out_t_alone = vec![0u8; 243];
    t_alone.squeeze(&mut out_t_alone).unwrap();

    let mut c_alone = Curl::new(HashMode::CURLP27).unwrap();
    c_alone.absorb(&y).unwrap();
    let mut out_c_alone = vec![0i8; 243];
    c_alone.squeeze(&mut out_c_alone).unwrap();

    assert_eq!(out_t, out_t_alone);
    assert_eq!(out_c, out_c_alone);
}
