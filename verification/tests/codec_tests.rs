use kv_bench::codec::{decode_u64, encode_u64};
use kv_bench::error::StoreError;

#[test]
fn encode_is_big_endian() {
    assert_eq!(
        encode_u64(0x0102030405060708),
        vec![1, 2, 3, 4, 5, 6, 7, 8]
    );
    assert_eq!(encode_u64(0), vec![0, 0, 0, 0, 0, 0, 0, 0]);
    assert_eq!(encode_u64(1), vec![0, 0, 0, 0, 0, 0, 0, 1]);
    assert_eq!(encode_u64(u64::MAX), vec![255; 8]);
}

#[test]
fn decode_inverts_encode() {
    for v in [0, 1, 2, 255, 256, 1_000_000, u64::MAX] {
        assert_eq!(decode_u64(&encode_u64(v)), Ok(v));
    }
}

#[test]
fn decode_rejects_wrong_lengths() {
    assert_eq!(decode_u64(&vec![]), Err(StoreError::DecodeError));
    assert_eq!(decode_u64(&vec![1, 2, 3]), Err(StoreError::DecodeError));
    assert_eq!(
        decode_u64(&vec![0, 0, 0, 0, 0, 0, 0, 1, 0]),
        Err(StoreError::DecodeError)
    );
}
