use bee_crypto::codec::{decode_trit, decode_trits, encode_trit, encode_trits};
use bee_crypto::Error;

#[test]
fn codec_round_trip() {
    for t in [-1i8, 0, 1] {
        let w = encode_trit(t);
        assert_eq!(decode_trit(w), Ok(t));
    }
}

#[test]
fn codec_encoding_values() {
    assert_eq!(encode_trit(0), 0);
    assert_eq!(encode_trit(1), 1);
    assert_eq!(encode_trit(-1), 2);
}

#[test]
fn codec_rejects_out_of_domain_bytes() {
    for w in [3u8, 4, 17, 255] {
        assert_eq!(decode_trit(w), Err(Error::InvalidEncoding(w)));
    }
}

#[test]
fn codec_slice_round_trip() {
    let trits: Vec<i8> = vec![-1, 0, 1, 1, 0, -1, 0];
    let packed = encode_trits(&trits);
    assert_eq!(packed, vec![2u8, 0, 1, 1, 0, 2, 0]);
    assert_eq!(decode_trits(&packed), Ok(trits));
}

#[test]
fn codec_slice_decode_reports_bad_byte() {
    let packed = vec![0u8, 1, 2, 3, 1];
    assert_eq!(decode_trits(&packed), Err(Error::InvalidEncoding(3)));
}
