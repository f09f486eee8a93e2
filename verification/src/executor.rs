//! The custodial payment executor.
//!
//! `X402PaymentExecutor` runs the same authorization pipeline as the token,
//! but the funds it settles are the host environment's own balances, which
//! the library cannot move. `execute_payment` therefore decides and commits
//! the nonce, returning a settlement plan; the host performs the transfers
//! and reports back through `settle_payment`.

use vstd::prelude::*;
use crate::account::{AccountId, Balance, account_bytes, bytes32_eq};
use crate::authorization::{sig_accepted, verify_signature};
use crate::codec::append_bytes;
use crate::fees::{clamp_bps, clamped_bps, compute_fee, fee_computable, fee_of, BPS_SCALE};
use crate::hashing::{keccak_256, keccak_256_of};
use crate::nonce::NonceRegistry;

verus! {

/// A payment payload as the signer presents it.
#[derive(Clone, Debug, PartialEq, Eq)]
pub struct PaymentPayload {
    pub from: AccountId,
    pub to: AccountId,
    pub amount: Balance,
    pub nonce: Vec<u8>,
    pub valid_until: u64,
}

/// The outcome record of a settled payment.
#[derive(Clone, Debug, PartialEq, Eq)]
pub struct PaymentResult {
    pub success: bool,
    pub block_number: u32,
    pub nonce: Vec<u8>,
}

/// What the host must transfer for an accepted authorization: the net
/// amount to the recipient, and the fee to the facilitator.
#[derive(Clone, Debug, PartialEq, Eq)]
pub struct PaymentPlan {
    pub to: AccountId,
    pub net_amount: Balance,
    pub facilitator: AccountId,
    pub facilitator_fee: Balance,
}

/// Errors of the payment executor.
#[derive(Clone, Copy, Debug, PartialEq, Eq)]
pub enum Error {
    /// The signature is malformed or does not authorize the payload.
    InvalidSignature,
    /// The authorization's deadline lies strictly before the current time.
    Expired,
    /// The nonce was already consumed by an earlier submission.
    NonceAlreadyUsed,
    /// The fee computation would overflow 128 bits.
    ArithmeticOverflow,
    /// The payload names a zero amount.
    ZeroAmount,
    /// The host could not perform the principal transfer.
    TransferFailed,
    /// The caller is not the admin.
    Unauthorized,
}

/// Observation of one executed payment.
#[derive(Clone, Debug, PartialEq, Eq)]
pub struct PaymentExecuted {
    pub from: AccountId,
    pub to: AccountId,
    pub amount: Balance,
    pub facilitator_fee: Balance,
    pub nonce: Vec<u8>,
    pub block_number: u32,
}

/// Observation of one failed payment, with a human-readable reason.
#[derive(Clone, Debug, PartialEq, Eq)]
pub struct PaymentFailed {
    pub from: AccountId,
    pub nonce: Vec<u8>,
    pub reason: String,
}

/// The nonce key the executor derives for a signer and nonce pair: the
/// Keccak-256 digest of the signer's raw bytes followed by the nonce bytes.
pub open spec fn executor_nonce_key_of(from: Seq<u8>, nonce: Seq<u8>) -> Seq<u8> {
    keccak_256_of(from + nonce)
}

/// The decision the executor takes on a payload: the used-nonce set after
/// the call, and either a settlement plan or the rejection.
pub open spec fn authorize_outcome(
    nonces: Set<Seq<u8>>,
    owner: Seq<u8>,
    fee_bps: u16,
    from: Seq<u8>,
    to: AccountId,
    facilitator: AccountId,
    amount: Balance,
    valid_until: u64,
    nonce: Seq<u8>,
    signature: Seq<u8>,
    now: u64,
) -> (Set<Seq<u8>>, Result<PaymentPlan, Error>) {
    let key = executor_nonce_key_of(from, nonce);
    if now > valid_until {
        (nonces, Err(Error::Expired))
    } else if nonces.contains(key) {
        (nonces, Err(Error::NonceAlreadyUsed))
    } else if !sig_accepted(from, to@, amount, nonce, valid_until, signature) {
        (nonces, Err(Error::InvalidSignature))
    } else if amount == 0 {
        (nonces, Err(Error::ZeroAmount))
    } else if !fee_computable(amount, fee_bps) {
        (nonces, Err(Error::ArithmeticOverflow))
    } else {
        let fee = fee_of(amount, fee_bps) as Balance;
        let net = (amount - fee_of(amount, fee_bps)) as Balance;
        (
            nonces.insert(key),
            Ok(
                PaymentPlan {
                    to,
                    net_amount: net,
                    facilitator,
                    facilitator_fee: fee,
                },
            ),
        )
    }
}

/// The payment executor.
pub struct X402PaymentExecutor {
    used_nonces: NonceRegistry,
    owner: AccountId,
    facilitator_fee_bps: u16,
}

impl X402PaymentExecutor {
    /// Well-formed: the fee rate is at most 100%.
    pub closed spec fn wf(&self) -> bool {
        self.facilitator_fee_bps <= BPS_SCALE
    }

    /// The set of consumed nonce keys.
    pub closed spec fn nonces(&self) -> Set<Seq<u8>> {
        self.used_nonces@
    }

    /// The admin and fee recipient.
    pub closed spec fn owner_id(&self) -> Seq<u8> {
        self.owner@
    }

    /// The stored account of the admin and fee recipient.
    pub closed spec fn owner_account(&self) -> AccountId {
        self.owner
    }

    /// The facilitator fee rate in basis points.
    pub closed spec fn fee_bps(&self) -> u16 {
        self.facilitator_fee_bps
    }

    /// Creates an executor: the creator becomes the admin, and the fee rate
    /// is clamped to at most 100%.
    pub fn new(facilitator_fee_bps: u16, caller: AccountId) -> (r: X402PaymentExecutor)
        ensures
            r.wf(),
            r.nonces() == Set::<Seq<u8>>::empty(),
            r.owner_id() == caller@,
            r.owner_account() == caller,
            r.fee_bps() == clamped_bps(facilitator_fee_bps),
    {
        X402PaymentExecutor {
            used_nonces: NonceRegistry::new(),
            owner: caller,
            facilitator_fee_bps: clamp_bps(facilitator_fee_bps),
        }
    }

    /// Decides a signed payment authorization and commits its nonce.
    ///
    /// On acceptance the nonce is consumed and the returned plan names the
    /// transfers the host must perform; the host then reports the outcome to
    /// `settle_payment`. The nonce stays consumed whatever the host reports.
    pub fn execute_payment(
        &mut self,
        from: AccountId,
        to: AccountId,
        amount: Balance,
        nonce: Vec<u8>,
        valid_until: u64,
        signature: Vec<u8>,
        current_time: u64,
    ) -> (r: Result<PaymentPlan, Error>)
        requires
            old(self).wf(),
        ensures
            final(self).wf(),
            final(self).owner_id() == old(self).owner_id(),
            final(self).owner_account() == old(self).owner_account(),
            final(self).fee_bps() == old(self).fee_bps(),
            ({
                let o = authorize_outcome(
                    old(self).nonces(),
                    old(self).owner_id(),
                    old(self).fee_bps(),
                    from@,
                    to,
                    old(self).owner_account(),
                    amount,
                    valid_until,
                    nonce@,
                    signature@,
                    current_time,
                );
                final(self).nonces() == o.0 && r == o.1
            }),
            r matches Err(e) && e == Error::Expired <==> current_time > valid_until,
            current_time <= valid_until && !old(self).nonces().contains(
                executor_nonce_key_of(from@, nonce@),
            ) && signature@.len() != 64 ==> r == Err::<PaymentPlan, Error>(Error::InvalidSignature),
            old(self).nonces().subset_of(final(self).nonces()),
            r is Ok ==> final(self).nonces().contains(executor_nonce_key_of(from@, nonce@)),
    {
        let key = self.compute_nonce_hash(&from, &nonce);
        if current_time > valid_until {
            return Err(Error::Expired);
        }
        if self.used_nonces.is_used(&key) {
            return Err(Error::NonceAlreadyUsed);
        }
        if !verify_signature(&from, &to, amount, &nonce, valid_until, &signature) {
            return Err(Error::InvalidSignature);
        }
        if amount == 0 {
            return Err(Error::ZeroAmount);
        }
        let (fee, net) = match compute_fee(amount, self.facilitator_fee_bps) {
            Some(split) => split,
            None => {
                return Err(Error::ArithmeticOverflow);
            },
        };
        self.used_nonces.mark_used(&key);
        Ok(
            PaymentPlan {
                to,
                net_amount: net,
                facilitator: self.owner,
                facilitator_fee: fee,
            },
        )
    }

    /// Turns the host's report on a plan's principal transfer into the
    /// pipeline's result: a failed principal transfer is terminal, while the
    /// fee leg is best-effort and never surfaces.
    pub fn settle_payment(
        &self,
        principal_transferred: bool,
        block_number: u32,
        nonce: Vec<u8>,
    ) -> (r: Result<PaymentResult, Error>)
        ensures
            principal_transferred ==> r == Ok::<PaymentResult, Error>(
                PaymentResult { success: true, block_number, nonce },
            ),
            !principal_transferred ==> r == Err::<PaymentResult, Error>(Error::TransferFailed),
    {
        if principal_transferred {
            Ok(PaymentResult { success: true, block_number, nonce })
        } else {
            Err(Error::TransferFailed)
        }
    }

    /// Whether the nonce of a signer has been consumed.
    pub fn is_nonce_used(&self, from: AccountId, nonce: Vec<u8>) -> (r: bool)
        ensures
            r == self.nonces().contains(executor_nonce_key_of(from@, nonce@)),
    {
        let key = self.compute_nonce_hash(&from, &nonce);
        self.used_nonces.is_used(&key)
    }

    /// The facilitator fee rate in basis points.
    pub fn get_facilitator_fee(&self) -> (r: u16)
        ensures
            r == self.fee_bps(),
    {
        self.facilitator_fee_bps
    }

    /// Sets the facilitator fee rate, clamped to at most 100%.
    ///
    /// Only the admin may call this; anyone else is rejected and the stored
    /// rate is unchanged.
    pub fn set_facilitator_fee(&mut self, fee_bps: u16, caller: AccountId) -> (r: Result<
        (),
        Error,
    >)
        requires
            old(self).wf(),
        ensures
            final(self).wf(),
            caller@ != old(self).owner_id() ==> r == Err::<(), Error>(Error::Unauthorized)
                && final(self).fee_bps() == old(self).fee_bps(),
            caller@ == old(self).owner_id() ==> r == Ok::<(), Error>(()) && final(self).fee_bps()
                == clamped_bps(fee_bps),
            final(self).owner_id() == old(self).owner_id(),
            final(self).owner_account() == old(self).owner_account(),
            final(self).nonces() == old(self).nonces(),
    {
        if !bytes32_eq(&caller, &self.owner) {
            return Err(Error::Unauthorized);
        }
        self.facilitator_fee_bps = clamp_bps(fee_bps);
        Ok(())
    }

    /// The admin account.
    pub fn get_owner(&self) -> (r: AccountId)
        ensures
            r == self.owner_account(),
    {
        self.owner
    }

    /// The nonce key of a signer and nonce pair.
    fn compute_nonce_hash(&self, from: &AccountId, nonce: &Vec<u8>) -> (r: [u8; 32])
        ensures
            r@ == executor_nonce_key_of(from@, nonce@),
    {
        let mut data = account_bytes(from);
        append_bytes(&mut data, nonce);
        keccak_256(&data)
    }
}

} // verus!
