//! Tests of the canonical message encoding and the hashing primitives.

fn hex_to_bytes(hex: &str) -> Vec<u8> {
    let digits: Vec<u32> = hex.chars().map(|c| c.to_digit(16).unwrap()).collect();
    digits.chunks(2).map(|pair| (pair[0] * 16 + pair[1]) as u8).collect()
}

#[test]
fn blake2_256_matches_known_vector() {
    let digest = authpay::hashing::blake2_256(&Vec::new());
    let expected = hex_to_bytes("0e5751c026e543b2e8ab2eb06099daa1d1e5df47778f7787faab45cdf12fe3a8");
    assert_eq!(digest.to_vec(), expected);
}

#[test]
fn keccak_256_matches_known_vector() {
    let digest = authpay::hashing::keccak_256(&Vec::new());
    let expected = hex_to_bytes("c5d2460186f7233c927e7db2dcc703c0e500b653ca82273b7bfad8045d85a470");
    assert_eq!(digest.to_vec(), expected);
}

#[test]
fn signing_message_layout_is_fixed() {
    let from = [0x01u8; 32];
    let to = [0x02u8; 32];
    let nonce = b"ab".to_vec();
    let message = authpay::authorization::build_message(&from, &to, 7, &nonce, 9);

    let mut expected: Vec<u8> = Vec::new();
    expected.extend_from_slice(&[0x01u8; 32]);
    expected.extend_from_slice(&[0x02u8; 32]);
    let mut amount = [0u8; 16];
    amount[0] = 7;
    expected.extend_from_slice(&amount);
    expected.extend_from_slice(b"ab");
    let mut deadline = [0u8; 8];
    deadline[0] = 9;
    expected.extend_from_slice(&deadline);

    assert_eq!(message, expected);
}

#[test]
fn message_digest_hashes_the_message() {
    let from = [0x01u8; 32];
    let to = [0x02u8; 32];
    let nonce = b"ab".to_vec();
    let message = authpay::authorization::build_message(&from, &to, 7, &nonce, 9);
    let digest = authpay::authorization::message_digest(&from, &to, 7, &nonce, 9);
    assert_eq!(digest, authpay::hashing::blake2_256(&message));
    // The digest is not the message and not a prefix copy of it.
    assert_ne!(digest.to_vec(), message[..32].to_vec());
}

#[test]
fn fee_split_formula() {
    assert_eq!(authpay::fees::compute_fee(1000, 100), Some((10, 990)));
    assert_eq!(authpay::fees::compute_fee(1000, 0), Some((0, 1000)));
    assert_eq!(authpay::fees::compute_fee(u128::MAX, 100), None);
    // Rounding is floor: 99 * 1% = 0.99 -> 0.
    assert_eq!(authpay::fees::compute_fee(99, 100), Some((0, 99)));
}
