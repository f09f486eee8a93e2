//! End-to-end tests of the token's authorization pipeline.

use authpay::httpusd::{Error, Httpusd, PSP22Error};

fn signer_keypair() -> (schnorrkel::Keypair, [u8; 32]) {
    let mini = schnorrkel::MiniSecretKey::from_bytes(&[7u8; 32]).unwrap();
    let keypair = mini.expand_to_keypair(schnorrkel::ExpansionMode::Ed25519);
    let public = keypair.public.to_bytes();
    (keypair, public)
}

fn sign_payload(
    keypair: &schnorrkel::Keypair,
    from: [u8; 32],
    to: [u8; 32],
    amount: u128,
    nonce: &[u8],
    valid_until: u64,
) -> Vec<u8> {
    let digest =
        authpay::authorization::message_digest(&from, &to, amount, &nonce.to_vec(), valid_until);
    keypair.sign_simple(b"substrate", &digest).to_bytes().to_vec()
}

/// A token whose owner funded the signer with 10_000.
fn funded_token() -> (Httpusd, [u8; 32], schnorrkel::Keypair, [u8; 32]) {
    let owner = [0x09u8; 32];
    let (keypair, from) = signer_keypair();
    let mut token = Httpusd::new(1_000_000, 100, owner);
    token.transfer(from, 10_000, owner).unwrap();
    (token, owner, keypair, from)
}

#[test]
fn httpusd_new_works() {
    let initial_supply = 1_000_000_000_000;
    let contract = Httpusd::new(initial_supply, 100, [0x01u8; 32]);
    assert_eq!(contract.total_supply(), initial_supply);
    assert_eq!(contract.get_facilitator_fee(), 100);
}

#[test]
fn httpusd_nonce_tracking_works() {
    let initial_supply = 1_000_000_000_000;
    let (keypair, account) = signer_keypair();
    let mut contract = Httpusd::new(initial_supply, 100, account);
    let nonce = b"test-nonce-123".to_vec();

    assert!(!contract.is_nonce_used(account, nonce.clone()));

    let to = [0x03u8; 32];
    let signature = sign_payload(&keypair, account, to, 500, &nonce, 10);
    contract
        .transfer_with_authorization(account, to, 500, 10, nonce.clone(), signature, 10)
        .unwrap();

    assert!(contract.is_nonce_used(account, nonce.clone()));
    // Repeated checks keep reporting the key as used.
    assert!(contract.is_nonce_used(account, nonce));
}

#[test]
fn decimals_is_twelve() {
    let contract = Httpusd::new(1, 0, [0x01u8; 32]);
    assert_eq!(contract.decimals(), 12);
}

#[test]
fn authorized_payment_moves_exact_amounts() {
    let (mut token, owner, keypair, from) = funded_token();
    let to = [0x03u8; 32];
    let nonce = b"pay-1".to_vec();
    let signature = sign_payload(&keypair, from, to, 1000, &nonce, 100);

    let owner_before = token.balance_of(owner);
    token
        .transfer_with_authorization(from, to, 1000, 100, nonce, signature, 50)
        .unwrap();

    // feeBps = 100 (1%): fee 10, net 990.
    assert_eq!(token.balance_of(from), 9_000);
    assert_eq!(token.balance_of(to), 990);
    assert_eq!(token.balance_of(owner), owner_before + 10);
    assert_eq!(token.total_supply(), 1_000_000);
}

#[test]
fn zero_fee_rate_pays_full_amount() {
    let owner = [0x09u8; 32];
    let (keypair, from) = signer_keypair();
    let mut token = Httpusd::new(1_000_000, 0, owner);
    token.transfer(from, 5_000, owner).unwrap();
    let to = [0x03u8; 32];
    let nonce = b"pay-free".to_vec();
    let signature = sign_payload(&keypair, from, to, 1000, &nonce, 100);

    let owner_before = token.balance_of(owner);
    token
        .transfer_with_authorization(from, to, 1000, 100, nonce, signature, 100)
        .unwrap();

    assert_eq!(token.balance_of(to), 1000);
    assert_eq!(token.balance_of(owner), owner_before);
}

#[test]
fn expiry_boundary_is_inclusive() {
    let (mut token, _owner, keypair, from) = funded_token();
    let to = [0x03u8; 32];

    // validUntil == currentTime: accepted.
    let nonce_a = b"boundary-a".to_vec();
    let sig_a = sign_payload(&keypair, from, to, 100, &nonce_a, 77);
    assert!(token
        .transfer_with_authorization(from, to, 100, 77, nonce_a, sig_a, 77)
        .is_ok());

    // validUntil == currentTime - 1: rejected as expired.
    let nonce_b = b"boundary-b".to_vec();
    let sig_b = sign_payload(&keypair, from, to, 100, &nonce_b, 76);
    assert_eq!(
        token.transfer_with_authorization(from, to, 100, 76, nonce_b.clone(), sig_b, 77),
        Err(Error::Expired)
    );
    // An expired submission does not consume the nonce.
    assert!(!token.is_nonce_used(from, nonce_b));
}

#[test]
fn wrong_signature_length_is_rejected() {
    let (mut token, _owner, keypair, from) = funded_token();
    let to = [0x03u8; 32];
    let nonce = b"len".to_vec();

    let sixty_three = vec![0u8; 63];
    assert_eq!(
        token.transfer_with_authorization(from, to, 100, 100, nonce.clone(), sixty_three, 50),
        Err(Error::InvalidSignature)
    );

    // 65 bytes: a valid signature with a byte appended is still rejected.
    let mut sixty_five = sign_payload(&keypair, from, to, 100, &nonce, 100);
    sixty_five.push(0);
    assert_eq!(
        token.transfer_with_authorization(from, to, 100, 100, nonce.clone(), sixty_five, 50),
        Err(Error::InvalidSignature)
    );
    assert!(!token.is_nonce_used(from, nonce));
}

#[test]
fn corrupted_signature_is_rejected() {
    let (mut token, _owner, keypair, from) = funded_token();
    let to = [0x03u8; 32];
    let nonce = b"flip".to_vec();
    let mut signature = sign_payload(&keypair, from, to, 100, &nonce, 100);
    signature[10] ^= 0xff;
    assert_eq!(
        token.transfer_with_authorization(from, to, 100, 100, nonce, signature, 50),
        Err(Error::InvalidSignature)
    );
}

#[test]
fn signature_does_not_cover_other_payloads() {
    let (mut token, _owner, keypair, from) = funded_token();
    let to = [0x03u8; 32];
    let nonce = b"bind".to_vec();
    let signature = sign_payload(&keypair, from, to, 100, &nonce, 100);
    // Same signature presented for a different amount.
    assert_eq!(
        token.transfer_with_authorization(from, to, 101, 100, nonce, signature, 50),
        Err(Error::InvalidSignature)
    );
}

#[test]
fn zero_amount_is_rejected() {
    let (mut token, _owner, keypair, from) = funded_token();
    let to = [0x03u8; 32];
    let nonce = b"zero".to_vec();
    let signature = sign_payload(&keypair, from, to, 0, &nonce, 100);
    assert_eq!(
        token.transfer_with_authorization(from, to, 0, 100, nonce, signature, 50),
        Err(Error::ZeroAmount)
    );
}

#[test]
fn fee_overflow_is_rejected() {
    let (mut token, _owner, keypair, from) = funded_token();
    let to = [0x03u8; 32];
    let nonce = b"big".to_vec();
    let signature = sign_payload(&keypair, from, to, u128::MAX, &nonce, 100);
    assert_eq!(
        token.transfer_with_authorization(from, to, u128::MAX, 100, nonce.clone(), signature, 50),
        Err(Error::ArithmeticOverflow)
    );
    // Rejected before the nonce commit.
    assert!(!token.is_nonce_used(from, nonce));
}

#[test]
fn replay_is_rejected() {
    let (mut token, _owner, keypair, from) = funded_token();
    let to = [0x03u8; 32];
    let nonce = b"once".to_vec();
    let signature = sign_payload(&keypair, from, to, 1000, &nonce, 100);

    assert!(token
        .transfer_with_authorization(from, to, 1000, 100, nonce.clone(), signature.clone(), 50)
        .is_ok());
    // The identical payload again: still signed, still unexpired, rejected.
    assert_eq!(
        token.transfer_with_authorization(from, to, 1000, 100, nonce, signature, 50),
        Err(Error::NonceAlreadyUsed)
    );
}

#[test]
fn underfunded_payment_burns_nonce() {
    let (mut token, _owner, keypair, from) = funded_token();
    let to = [0x03u8; 32];
    let nonce = b"short".to_vec();
    // Signer holds 10_000; the authorization asks for more.
    let signature = sign_payload(&keypair, from, to, 20_000, &nonce, 100);
    assert_eq!(
        token.transfer_with_authorization(from, to, 20_000, 100, nonce.clone(), signature, 50),
        Err(Error::TransferFailed)
    );
    // The nonce was committed before the transfer and stays consumed.
    assert!(token.is_nonce_used(from, nonce));
    // No funds moved.
    assert_eq!(token.balance_of(from), 10_000);
    assert_eq!(token.balance_of(to), 0);
}

#[test]
fn set_fee_rate_requires_admin() {
    let owner = [0x09u8; 32];
    let stranger = [0x0au8; 32];
    let mut token = Httpusd::new(1_000, 100, owner);

    assert_eq!(token.set_facilitator_fee(500, stranger), Err(Error::Unauthorized));
    assert_eq!(token.get_facilitator_fee(), 100);

    assert!(token.set_facilitator_fee(500, owner).is_ok());
    assert_eq!(token.get_facilitator_fee(), 500);

    // The admin-set path clamps to 100%.
    assert!(token.set_facilitator_fee(20_000, owner).is_ok());
    assert_eq!(token.get_facilitator_fee(), 10_000);
}

#[test]
fn plain_transfer_and_errors() {
    let owner = [0x09u8; 32];
    let other = [0x03u8; 32];
    let poor = [0x04u8; 32];
    let mut token = Httpusd::new(1_000, 0, owner);

    assert!(token.transfer(other, 300, owner).is_ok());
    assert_eq!(token.balance_of(owner), 700);
    assert_eq!(token.balance_of(other), 300);

    assert_eq!(
        token.transfer(other, 1, poor),
        Err(Error::PSP22(PSP22Error::InsufficientBalance))
    );
}

#[test]
fn approve_and_transfer_from() {
    let owner = [0x09u8; 32];
    let spender = [0x05u8; 32];
    let dest = [0x06u8; 32];
    let mut token = Httpusd::new(1_000, 0, owner);

    assert!(token.approve(spender, 400, owner).is_ok());
    assert_eq!(token.allowance(owner, spender), 400);

    assert!(token.transfer_from(owner, dest, 150, spender).is_ok());
    assert_eq!(token.balance_of(dest), 150);
    assert_eq!(token.allowance(owner, spender), 250);

    assert_eq!(
        token.transfer_from(owner, dest, 300, spender),
        Err(Error::PSP22(PSP22Error::InsufficientAllowance))
    );
    assert_eq!(token.allowance(owner, spender), 250);
}

#[test]
fn error_wraps_psp22() {
    let e = Error::from(PSP22Error::InsufficientBalance);
    assert_eq!(e, Error::PSP22(PSP22Error::InsufficientBalance));
}
