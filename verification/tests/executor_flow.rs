//! Tests of the custodial payment executor's decide-and-settle flow.

use authpay::executor::{Error, PaymentResult, X402PaymentExecutor};

fn signer_keypair() -> (schnorrkel::Keypair, [u8; 32]) {
    let mini = schnorrkel::MiniSecretKey::from_bytes(&[9u8; 32]).unwrap();
    let keypair = mini.expand_to_keypair(schnorrkel::ExpansionMode::Ed25519);
    let public = keypair.public.to_bytes();
    (keypair, public)
}

fn sign_payload(
    keypair: &schnorrkel::Keypair,
    from: [u8; 32],
    to: [u8; 32],
    amount: u128,
    nonce: &[u8],
    valid_until: u64,
) -> Vec<u8> {
    let digest =
        authpay::authorization::message_digest(&from, &to, amount, &nonce.to_vec(), valid_until);
    keypair.sign_simple(b"substrate", &digest).to_bytes().to_vec()
}

#[test]
fn lib_new_works() {
    let contract = X402PaymentExecutor::new(100, [0x01u8; 32]);
    assert_eq!(contract.get_facilitator_fee(), 100);
}

#[test]
fn lib_nonce_tracking_works() {
    let (keypair, account) = signer_keypair();
    let mut contract = X402PaymentExecutor::new(100, [0x01u8; 32]);
    let nonce = b"test-nonce-123".to_vec();

    assert!(!contract.is_nonce_used(account, nonce.clone()));

    let to = [0x03u8; 32];
    let signature = sign_payload(&keypair, account, to, 500, &nonce, 10);
    contract
        .execute_payment(account, to, 500, nonce.clone(), 10, signature, 10)
        .unwrap();

    assert!(contract.is_nonce_used(account, nonce));
}

#[test]
fn executor_plan_splits_fee() {
    let owner = [0x01u8; 32];
    let (keypair, from) = signer_keypair();
    let mut contract = X402PaymentExecutor::new(100, owner);
    let to = [0x03u8; 32];
    let nonce = b"plan".to_vec();
    let signature = sign_payload(&keypair, from, to, 1000, &nonce, 100);

    let plan = contract
        .execute_payment(from, to, 1000, nonce, 100, signature, 50)
        .unwrap();
    assert_eq!(plan.to, to);
    assert_eq!(plan.net_amount, 990);
    assert_eq!(plan.facilitator, owner);
    assert_eq!(plan.facilitator_fee, 10);
    assert_eq!(contract.get_owner(), owner);
}

#[test]
fn executor_settlement_reports() {
    let contract = X402PaymentExecutor::new(100, [0x01u8; 32]);
    let done = contract.settle_payment(true, 42, b"n".to_vec());
    assert_eq!(
        done,
        Ok(PaymentResult { success: true, block_number: 42, nonce: b"n".to_vec() })
    );
    let failed = contract.settle_payment(false, 42, b"n".to_vec());
    assert_eq!(failed, Err(Error::TransferFailed));
}

#[test]
fn executor_rejects_replay_and_expiry() {
    let (keypair, from) = signer_keypair();
    let mut contract = X402PaymentExecutor::new(100, [0x01u8; 32]);
    let to = [0x03u8; 32];
    let nonce = b"exec-replay".to_vec();
    let signature = sign_payload(&keypair, from, to, 1000, &nonce, 100);

    assert!(contract
        .execute_payment(from, to, 1000, nonce.clone(), 100, signature.clone(), 100)
        .is_ok());
    assert_eq!(
        contract.execute_payment(from, to, 1000, nonce.clone(), 100, signature, 100),
        Err(Error::NonceAlreadyUsed)
    );

    let late_nonce = b"exec-late".to_vec();
    let late_sig = sign_payload(&keypair, from, to, 1000, &late_nonce, 99);
    assert_eq!(
        contract.execute_payment(from, to, 1000, late_nonce, 99, late_sig, 100),
        Err(Error::Expired)
    );
}

#[test]
fn executor_rejects_fee_overflow() {
    let (keypair, from) = signer_keypair();
    let mut contract = X402PaymentExecutor::new(100, [0x01u8; 32]);
    let to = [0x03u8; 32];
    let nonce = b"exec-big".to_vec();
    let signature = sign_payload(&keypair, from, to, u128::MAX, &nonce, 100);
    assert_eq!(
        contract.execute_payment(from, to, u128::MAX, nonce.clone(), 100, signature, 100),
        Err(Error::ArithmeticOverflow)
    );
    assert!(!contract.is_nonce_used(from, nonce));
}

#[test]
fn executor_admin_gate() {
    let owner = [0x01u8; 32];
    let stranger = [0x02u8; 32];
    let mut contract = X402PaymentExecutor::new(100, owner);
    assert_eq!(contract.set_facilitator_fee(50, stranger), Err(Error::Unauthorized));
    assert_eq!(contract.get_facilitator_fee(), 100);
    assert!(contract.set_facilitator_fee(50, owner).is_ok());
    assert_eq!(contract.get_facilitator_fee(), 50);
}

#[test]
fn executor_rejects_zero_and_short_signature() {
    let (keypair, from) = signer_keypair();
    let mut contract = X402PaymentExecutor::new(100, [0x01u8; 32]);
    let to = [0x03u8; 32];

    let nonce = b"exec-zero".to_vec();
    let signature = sign_payload(&keypair, from, to, 0, &nonce, 100);
    assert_eq!(
        contract.execute_payment(from, to, 0, nonce, 100, signature, 100),
        Err(Error::ZeroAmount)
    );

    let nonce2 = b"exec-short".to_vec();
    assert_eq!(
        contract.execute_payment(from, to, 10, nonce2, 100, vec![0u8; 63], 100),
        Err(Error::InvalidSignature)
    );
}
