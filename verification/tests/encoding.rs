use advance_runner::encoder::{encodable, encode_evm_advance, encode_with_selector};
use alloy_primitives::{Address, Bytes, U256};
use alloy_sol_types::SolValue;

const SIGNATURE: &str =
    "EvmAdvance(uint256,address,address,uint256,uint256,uint256,uint256,bytes)";

fn expected_call(selector: [u8; 4], payload: &[u8]) -> Vec<u8> {
    let params = (
        U256::ZERO,
        Address::ZERO,
        Address::ZERO,
        U256::ZERO,
        U256::ZERO,
        U256::ZERO,
        U256::ZERO,
        Bytes::from(payload.to_vec()),
    );
    let mut call = selector.to_vec();
    call.extend_from_slice(&params.abi_encode_params());
    call
}

#[test]
fn two_byte_payload_has_the_exact_layout() {
    let call = encode_evm_advance(&vec![0x01, 0x02]);
    let mut expected: Vec<u8> = vec![0x41, 0x5b, 0xf3, 0x63];
    expected.extend_from_slice(&[0u8; 224]);
    let mut offset = [0u8; 32];
    offset[30] = 0x01;
    expected.extend_from_slice(&offset);
    let mut length = [0u8; 32];
    length[31] = 0x02;
    expected.extend_from_slice(&length);
    let mut data = [0u8; 32];
    data[0] = 0x01;
    data[1] = 0x02;
    expected.extend_from_slice(&data);
    assert_eq!(call.len(), 324);
    assert_eq!(call, expected);
}

#[test]
fn selector_is_the_start_of_the_signature_digest() {
    let digest = alloy_primitives::keccak256(SIGNATURE);
    let call = encode_evm_advance(&vec![]);
    assert_eq!(&call[0..4], &digest.0[0..4]);
    assert_ne!(&call[0..4], &SIGNATURE.as_bytes()[0..4]);
}

#[test]
fn layout_agrees_with_the_abi_encoder() {
    let digest = alloy_primitives::keccak256(SIGNATURE);
    let selector = [digest.0[0], digest.0[1], digest.0[2], digest.0[3]];
    let mut payload: Vec<u8> = Vec::new();
    for len in 0..100usize {
        assert_eq!(encode_evm_advance(&payload), expected_call(selector, &payload), "length {}", len);
        payload.push((len * 7 + 3) as u8);
    }
}

#[test]
fn long_payload_length_spans_several_bytes() {
    let payload: Vec<u8> = vec![0xab; 0x012345];
    let call = encode_evm_advance(&payload);
    assert_eq!(&call[260..289], &[0u8; 29]);
    assert_eq!(&call[289..292], &[0x01, 0x23, 0x45]);
    assert_eq!(&call[292..292 + payload.len()], &payload[..]);
    assert_eq!(call.len(), 292 + 0x012345 + 27);
    assert!(call[292 + payload.len()..].iter().all(|b| *b == 0));
}

#[test]
fn encoding_is_deterministic() {
    let payload: Vec<u8> = vec![9, 8, 7, 6, 5];
    assert_eq!(encode_evm_advance(&payload), encode_evm_advance(&payload));
}

#[test]
fn header_does_not_depend_on_the_payload() {
    let a = encode_evm_advance(&vec![1, 2, 3]);
    let b = encode_evm_advance(&vec![0xff; 77]);
    assert_eq!(&a[0..260], &b[0..260]);
    assert_ne!(&a[260..], &b[260..]);
}

#[test]
fn empty_payload_has_no_data_words() {
    let call = encode_evm_advance(&vec![]);
    assert_eq!(call.len(), 292);
    assert_eq!(&call[260..292], &[0u8; 32]);
}

#[test]
fn payload_of_a_whole_word_gets_no_padding() {
    let payload: Vec<u8> = (0u8..32).collect();
    let call = encode_evm_advance(&payload);
    assert_eq!(call.len(), 324);
    assert_eq!(call[291], 32);
    assert_eq!(&call[292..], &payload[..]);
}

#[test]
fn payload_one_past_a_word_is_padded_to_the_next() {
    let payload: Vec<u8> = (0u8..33).collect();
    let call = encode_evm_advance(&payload);
    assert_eq!(call.len(), 356);
    assert_eq!(call[291], 33);
    assert_eq!(&call[292..325], &payload[..]);
    assert_eq!(&call[325..], &[0u8; 31]);
}

#[test]
fn selector_is_taken_from_the_first_four_digest_bytes() {
    let mut digest = [0u8; 32];
    for (i, b) in digest.iter_mut().enumerate() {
        *b = 0xa0 + i as u8;
    }
    let call = encode_with_selector(&digest, &vec![0x55]);
    assert_eq!(&call[0..4], &[0xa0, 0xa1, 0xa2, 0xa3]);
    assert_eq!(call, expected_call([0xa0, 0xa1, 0xa2, 0xa3], &[0x55]));
}

#[test]
fn every_real_length_is_encodable() {
    assert!(encodable(0));
    assert!(encodable(1 << 20));
    assert!(encodable(usize::MAX - 323));
    assert!(!encodable(usize::MAX - 322));
    assert!(!encodable(usize::MAX));
}
