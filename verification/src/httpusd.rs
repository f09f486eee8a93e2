//! The self-custodial token: a ledger with signature-authorized transfers.
//!
//! `Httpusd` holds balances itself and runs the authorization pipeline as one
//! forward state machine: expiry check, nonce check, signature check, amount
//! check, fee computation, nonce commit, principal transfer, best-effort fee
//! transfer. The nonce is committed before any balance moves, so a re-entrant
//! submission of the same authorization is rejected at the nonce check.

use vstd::prelude::*;
use crate::account::{AccountId, Balance, account_bytes, bytes32_eq};
use crate::allowances::{allowance_of, AllowanceTable};
use crate::authorization::{sig_accepted, verify_signature};
use crate::codec::append_bytes;
use crate::fees::{clamp_bps, clamped_bps, compute_fee, fee_computable, fee_of, BPS_SCALE};
use crate::hashing::{blake2_256, blake2_256_of};
use crate::ledger::{bal, transfer_admissible, transferred, Ledger, LedgerError};
use crate::nonce::NonceRegistry;

verus! {

/// Standard token errors.
#[derive(Clone, Debug, PartialEq, Eq)]
pub enum PSP22Error {
    /// A free-form failure message.
    Custom(String),
    /// The debited account does not cover the value.
    InsufficientBalance,
    /// The spender's allowance does not cover the value.
    InsufficientAllowance,
    /// The recipient account is the zero account.
    ZeroRecipientAddress,
    /// The sending account is the zero account.
    ZeroSenderAddress,
}

/// Errors of the authorization pipeline.
#[derive(Clone, Debug, PartialEq, Eq)]
pub enum Error {
    /// A token-level failure.
    PSP22(PSP22Error),
    /// The signature is malformed or does not authorize the payload.
    InvalidSignature,
    /// The authorization's deadline lies strictly before the current time.
    Expired,
    /// The nonce was already consumed by an earlier submission.
    NonceAlreadyUsed,
    /// The payload names a zero amount.
    ZeroAmount,
    /// A fee or balance computation would overflow 128 bits.
    ArithmeticOverflow,
    /// The principal transfer could not be performed.
    TransferFailed,
    /// The caller is not the admin.
    Unauthorized,
}

impl core::convert::From<PSP22Error> for Error {
    fn from(e: PSP22Error) -> (r: Error) {
        Error::PSP22(e)
    }
}

impl vstd::std_specs::convert::FromSpecImpl<PSP22Error> for Error {
    open spec fn obeys_from_spec() -> bool {
        true
    }

    open spec fn from_spec(e: PSP22Error) -> Error {
        Error::PSP22(e)
    }
}

/// Observation of one balance movement.
#[derive(Clone, Debug, PartialEq, Eq)]
pub struct Transfer {
    pub from: Option<AccountId>,
    pub to: Option<AccountId>,
    pub value: Balance,
}

/// Observation of one allowance change.
#[derive(Clone, Debug, PartialEq, Eq)]
pub struct Approval {
    pub owner: AccountId,
    pub spender: AccountId,
    pub value: Balance,
}

/// Diagnostic observation of one signature check; never consulted for
/// correctness.
#[derive(Clone, Debug, PartialEq, Eq)]
pub struct DebugSignature {
    pub message_hash: [u8; 32],
    pub signature_valid: bool,
    pub signature_len: u32,
}

/// Observation of one successful authorized payment.
#[derive(Clone, Debug, PartialEq, Eq)]
pub struct TransferWithAuthorization {
    pub from: AccountId,
    pub to: AccountId,
    pub amount: Balance,
    pub facilitator_fee: Balance,
    pub nonce: Vec<u8>,
}

/// The nonce key a signer and nonce pair denote: the BLAKE2b-256 digest of
/// the signer's raw bytes followed by the raw nonce bytes.
pub open spec fn nonce_key_of(from: Seq<u8>, nonce: Seq<u8>) -> Seq<u8> {
    blake2_256_of(from + nonce)
}

/// The balances after the settlement of a successful authorization: the
/// principal moves, then the fee moves if it is positive and its transfer can
/// go through; a failed fee leg is tolerated and rolls nothing back.
pub open spec fn settled_balances(
    m: Map<Seq<u8>, Balance>,
    from: Seq<u8>,
    to: Seq<u8>,
    owner: Seq<u8>,
    net: Balance,
    fee: Balance,
) -> Map<Seq<u8>, Balance> {
    let principal = transferred(m, from, to, net);
    if fee > 0 && transfer_admissible(principal, from, owner, fee) {
        transferred(principal, from, owner, fee)
    } else {
        principal
    }
}

/// The outcome of the authorization pipeline on a given state and payload:
/// the balances, the used-nonce set, and the result handed to the caller.
pub open spec fn process_outcome(
    balances: Map<Seq<u8>, Balance>,
    nonces: Set<Seq<u8>>,
    owner: Seq<u8>,
    fee_bps: u16,
    from: Seq<u8>,
    to: Seq<u8>,
    amount: Balance,
    valid_until: u64,
    nonce: Seq<u8>,
    signature: Seq<u8>,
    now: u64,
) -> (Map<Seq<u8>, Balance>, Set<Seq<u8>>, Result<(), Error>) {
    let key = nonce_key_of(from, nonce);
    if now > valid_until {
        (balances, nonces, Err(Error::Expired))
    } else if nonces.contains(key) {
        (balances, nonces, Err(Error::NonceAlreadyUsed))
    } else if !sig_accepted(from, to, amount, nonce, valid_until, signature) {
        (balances, nonces, Err(Error::InvalidSignature))
    } else if amount == 0 {
        (balances, nonces, Err(Error::ZeroAmount))
    } else if !fee_computable(amount, fee_bps) {
        (balances, nonces, Err(Error::ArithmeticOverflow))
    } else {
        let fee = fee_of(amount, fee_bps) as Balance;
        let net = (amount - fee_of(amount, fee_bps)) as Balance;
        let committed = nonces.insert(key);
        if !transfer_admissible(balances, from, to, net) {
            (balances, committed, Err(Error::TransferFailed))
        } else {
            (settled_balances(balances, from, to, owner, net, fee), committed, Ok(()))
        }
    }
}

/// The token.
pub struct Httpusd {
    total_supply: Balance,
    balances: Ledger,
    allowances: AllowanceTable,
    used_nonces: NonceRegistry,
    owner: AccountId,
    facilitator_fee_bps: u16,
}

impl Httpusd {
    /// Well-formed: the component stores are well-formed, the fee rate is at
    /// most 100%, and the stored balances sum to exactly the total supply.
    pub closed spec fn wf(&self) -> bool {
        &&& self.balances.wf()
        &&& self.allowances.wf()
        &&& self.facilitator_fee_bps <= BPS_SCALE
        &&& self.balances.total() == self.total_supply
    }

    /// The balance map, keyed by account bytes.
    pub closed spec fn balances_map(&self) -> Map<Seq<u8>, Balance> {
        self.balances@
    }

    /// The allowance map, keyed by (owner, spender) bytes.
    pub closed spec fn allowances_map(&self) -> Map<(Seq<u8>, Seq<u8>), Balance> {
        self.allowances@
    }

    /// The set of consumed nonce keys.
    pub closed spec fn nonces(&self) -> Set<Seq<u8>> {
        self.used_nonces@
    }

    /// The fixed total supply.
    pub closed spec fn supply(&self) -> Balance {
        self.total_supply
    }

    /// The admin and fee recipient.
    pub closed spec fn owner_id(&self) -> Seq<u8> {
        self.owner@
    }

    /// The facilitator fee rate in basis points.
    pub closed spec fn fee_bps(&self) -> u16 {
        self.facilitator_fee_bps
    }

    /// Creates the token: the creator holds the whole supply, becomes the
    /// admin, and the fee rate is clamped to at most 100%.
    pub fn new(initial_supply: Balance, facilitator_fee_bps: u16, caller: AccountId) -> (r:
        Httpusd)
        ensures
            r.wf(),
            r.supply() == initial_supply,
            r.balances_map() == Map::<Seq<u8>, Balance>::empty().insert(caller@, initial_supply),
            r.allowances_map() == Map::<(Seq<u8>, Seq<u8>), Balance>::empty(),
            r.nonces() == Set::<Seq<u8>>::empty(),
            r.owner_id() == caller@,
            r.fee_bps() == clamped_bps(facilitator_fee_bps),
    {
        let mut balances = Ledger::new();
        balances.set_balance(&caller, initial_supply);
        Httpusd {
            total_supply: initial_supply,
            balances,
            allowances: AllowanceTable::new(),
            used_nonces: NonceRegistry::new(),
            owner: caller,
            facilitator_fee_bps: clamp_bps(facilitator_fee_bps),
        }
    }

    /// The total supply.
    pub fn total_supply(&self) -> (r: Balance)
        ensures
            r == self.supply(),
    {
        self.total_supply
    }

    /// The number of decimals of the token.
    pub fn decimals(&self) -> (r: u8)
        ensures
            r == 12,
    {
        12
    }

    /// The balance of an account, or zero if it holds nothing.
    pub fn balance_of(&self, owner: AccountId) -> (r: Balance)
        requires
            self.wf(),
        ensures
            r == bal(self.balances_map(), owner@),
    {
        self.balances.balance_of(&owner)
    }

    /// The allowance of a spender on an owner's funds, or zero.
    pub fn allowance(&self, owner: AccountId, spender: AccountId) -> (r: Balance)
        requires
            self.wf(),
        ensures
            r == allowance_of(self.allowances_map(), owner@, spender@),
    {
        self.allowances.get(&owner, &spender)
    }

    /// A standard transfer from the caller to `to`.
    pub fn transfer(&mut self, to: AccountId, value: Balance, caller: AccountId) -> (r: Result<
        (),
        Error,
    >)
        requires
            old(self).wf(),
        ensures
            final(self).wf(),
            final(self).supply() == old(self).supply(),
            final(self).owner_id() == old(self).owner_id(),
            final(self).fee_bps() == old(self).fee_bps(),
            final(self).nonces() == old(self).nonces(),
            final(self).allowances_map() == old(self).allowances_map(),
            transfer_admissible(old(self).balances_map(), caller@, to@, value) ==> r == Ok::<
                (),
                Error,
            >(()) && final(self).balances_map() == transferred(
                old(self).balances_map(),
                caller@,
                to@,
                value,
            ),
            !transfer_admissible(old(self).balances_map(), caller@, to@, value) ==> final(self).balances_map() == old(self).balances_map() && r == Err::<(), Error>(
                transfer_error(old(self).balances_map(), caller@, to@, value),
            ),
    {
        self.transfer_from_to(&caller, &to, value)
    }

    /// Approves `spender` to move up to `value` of the caller's funds.
    pub fn approve(&mut self, spender: AccountId, value: Balance, caller: AccountId) -> (r: Result<
        (),
        Error,
    >)
        requires
            old(self).wf(),
        ensures
            final(self).wf(),
            r == Ok::<(), Error>(()),
            final(self).allowances_map() == old(self).allowances_map().insert(
                (caller@, spender@),
                value,
            ),
            final(self).balances_map() == old(self).balances_map(),
            final(self).supply() == old(self).supply(),
            final(self).owner_id() == old(self).owner_id(),
            final(self).fee_bps() == old(self).fee_bps(),
            final(self).nonces() == old(self).nonces(),
    {
        self.allowances.set(&caller, &spender, value);
        Ok(())
    }

    /// A transfer of an owner's funds by an approved spender.
    ///
    /// The allowance is reduced before the balances move; a transfer that
    /// then fails does not restore the allowance.
    pub fn transfer_from(
        &mut self,
        from: AccountId,
        to: AccountId,
        value: Balance,
        caller: AccountId,
    ) -> (r: Result<(), Error>)
        requires
            old(self).wf(),
        ensures
            final(self).wf(),
            final(self).supply() == old(self).supply(),
            final(self).owner_id() == old(self).owner_id(),
            final(self).fee_bps() == old(self).fee_bps(),
            final(self).nonces() == old(self).nonces(),
            allowance_of(old(self).allowances_map(), from@, caller@) < value ==> r == Err::<
                (),
                Error,
            >(Error::PSP22(PSP22Error::InsufficientAllowance)) && final(self).allowances_map()
                == old(self).allowances_map() && final(self).balances_map() == old(self).balances_map(),
            allowance_of(old(self).allowances_map(), from@, caller@) >= value ==> final(self).allowances_map() == old(self).allowances_map().insert(
                (from@, caller@),
                (allowance_of(old(self).allowances_map(), from@, caller@) - value) as Balance,
            ) && (transfer_admissible(old(self).balances_map(), from@, to@, value) ==> r == Ok::<
                (),
                Error,
            >(()) && final(self).balances_map() == transferred(
                old(self).balances_map(),
                from@,
                to@,
                value,
            )) && (!transfer_admissible(old(self).balances_map(), from@, to@, value) ==> final(self).balances_map() == old(self).balances_map() && r == Err::<(), Error>(
                transfer_error(old(self).balances_map(), from@, to@, value),
            )),
    {
        let allowance = self.allowances.get(&from, &caller);
        if allowance < value {
            return Err(Error::PSP22(PSP22Error::InsufficientAllowance));
        }
        self.allowances.set(&from, &caller, allowance - value);
        self.transfer_from_to(&from, &to, value)
    }

    /// Executes a signed payment authorization.
    ///
    /// The pipeline runs forward once: expiry, nonce freshness, signature,
    /// amount, fee computation, nonce commit, principal transfer, then a
    /// best-effort fee transfer to the admin. The nonce is committed before
    /// any balance moves, so even a failed principal transfer consumes it.
    pub fn transfer_with_authorization(
        &mut self,
        from: AccountId,
        to: AccountId,
        amount: Balance,
        valid_until: u64,
        nonce: Vec<u8>,
        signature: Vec<u8>,
        current_time: u64,
    ) -> (r: Result<(), Error>)
        requires
            old(self).wf(),
        ensures
            final(self).wf(),
            final(self).supply() == old(self).supply(),
            final(self).owner_id() == old(self).owner_id(),
            final(self).fee_bps() == old(self).fee_bps(),
            final(self).allowances_map() == old(self).allowances_map(),
            ({
                let o = process_outcome(
                    old(self).balances_map(),
                    old(self).nonces(),
                    old(self).owner_id(),
                    old(self).fee_bps(),
                    from@,
                    to@,
                    amount,
                    valid_until,
                    nonce@,
                    signature@,
                    current_time,
                );
                final(self).balances_map() == o.0 && final(self).nonces() == o.1 && r == o.2
            }),
            r == Err::<(), Error>(Error::Expired) <==> current_time > valid_until,
            current_time <= valid_until && !old(self).nonces().contains(
                nonce_key_of(from@, nonce@),
            ) && signature@.len() != 64 ==> r == Err::<(), Error>(Error::InvalidSignature),
            old(self).nonces().subset_of(final(self).nonces()),
            r == Ok::<(), Error>(()) ==> final(self).nonces().contains(
                nonce_key_of(from@, nonce@),
            ),
    {
        let key = self.compute_nonce_hash(&from, &nonce);
        if current_time > valid_until {
            return Err(Error::Expired);
        }
        if self.used_nonces.is_used(&key) {
            return Err(Error::NonceAlreadyUsed);
        }
        if !verify_signature(&from, &to, amount, &nonce, valid_until, &signature) {
            return Err(Error::InvalidSignature);
        }
        if amount == 0 {
            return Err(Error::ZeroAmount);
        }
        let (fee, net) = match compute_fee(amount, self.facilitator_fee_bps) {
            Some(split) => split,
            None => {
                return Err(Error::ArithmeticOverflow);
            },
        };
        self.used_nonces.mark_used(&key);
        match self.balances.transfer(&from, &to, net) {
            Ok(()) => {},
            Err(_) => {
                return Err(Error::TransferFailed);
            },
        }
        if fee > 0 {
            let owner = self.owner;
            let _ = self.balances.transfer(&from, &owner, fee);
        }
        Ok(())
    }

    /// Whether the nonce of a signer has been consumed.
    pub fn is_nonce_used(&self, from: AccountId, nonce: Vec<u8>) -> (r: bool)
        ensures
            r == self.nonces().contains(nonce_key_of(from@, nonce@)),
    {
        let key = self.compute_nonce_hash(&from, &nonce);
        self.used_nonces.is_used(&key)
    }

    /// The facilitator fee rate in basis points.
    pub fn get_facilitator_fee(&self) -> (r: u16)
        ensures
            r == self.fee_bps(),
    {
        self.facilitator_fee_bps
    }

    /// Sets the facilitator fee rate, clamped to at most 100%.
    ///
    /// Only the admin may call this; anyone else is rejected and the stored
    /// rate is unchanged.
    pub fn set_facilitator_fee(&mut self, fee_bps: u16, caller: AccountId) -> (r: Result<
        (),
        Error,
    >)
        requires
            old(self).wf(),
        ensures
            final(self).wf(),
            caller@ != old(self).owner_id() ==> r == Err::<(), Error>(Error::Unauthorized)
                && final(self).fee_bps() == old(self).fee_bps(),
            caller@ == old(self).owner_id() ==> r == Ok::<(), Error>(()) && final(self).fee_bps()
                == clamped_bps(fee_bps),
            final(self).supply() == old(self).supply(),
            final(self).owner_id() == old(self).owner_id(),
            final(self).balances_map() == old(self).balances_map(),
            final(self).allowances_map() == old(self).allowances_map(),
            final(self).nonces() == old(self).nonces(),
    {
        if !bytes32_eq(&caller, &self.owner) {
            return Err(Error::Unauthorized);
        }
        self.facilitator_fee_bps = clamp_bps(fee_bps);
        Ok(())
    }

    /// The ledger transfer, with its failures mapped to token errors.
    fn transfer_from_to(&mut self, from: &AccountId, to: &AccountId, value: Balance) -> (r: Result<
        (),
        Error,
    >)
        requires
            old(self).wf(),
        ensures
            final(self).wf(),
            final(self).supply() == old(self).supply(),
            final(self).owner_id() == old(self).owner_id(),
            final(self).fee_bps() == old(self).fee_bps(),
            final(self).nonces() == old(self).nonces(),
            final(self).allowances_map() == old(self).allowances_map(),
            transfer_admissible(old(self).balances_map(), from@, to@, value) ==> r == Ok::<
                (),
                Error,
            >(()) && final(self).balances_map() == transferred(
                old(self).balances_map(),
                from@,
                to@,
                value,
            ),
            !transfer_admissible(old(self).balances_map(), from@, to@, value) ==> final(self).balances_map() == old(self).balances_map() && r == Err::<(), Error>(
                transfer_error(old(self).balances_map(), from@, to@, value),
            ),
    {
        match self.balances.transfer(from, to, value) {
            Ok(()) => Ok(()),
            Err(LedgerError::InsufficientBalance) => Err(
                Error::PSP22(PSP22Error::InsufficientBalance),
            ),
            Err(LedgerError::Overflow) => Err(Error::ArithmeticOverflow),
        }
    }

    /// The nonce key of a signer and nonce pair.
    fn compute_nonce_hash(&self, from: &AccountId, nonce: &Vec<u8>) -> (r: [u8; 32])
        ensures
            r@ == nonce_key_of(from@, nonce@),
    {
        let mut data = account_bytes(from);
        append_bytes(&mut data, nonce);
        blake2_256(&data)
    }
}

/// Exact movement of funds: when a payment authorization between pairwise
/// distinct signer, recipient and admin is accepted against a signer funded
/// for the full amount, the signer pays exactly `amount`, the recipient
/// receives exactly `amount - fee`, the admin receives exactly `fee`, and
/// every other account is untouched.
pub proof fn lemma_authorized_payment_conservation(
    pre: Httpusd,
    from: AccountId,
    to: AccountId,
    amount: Balance,
    valid_until: u64,
    nonce: Seq<u8>,
    signature: Seq<u8>,
    now: u64,
)
    requires
        pre.wf(),
        from@ != to@,
        to@ != pre.owner_id(),
        from@ != pre.owner_id(),
        bal(pre.balances_map(), from@) >= amount,
    ensures
        ({
            let o = process_outcome(
                pre.balances_map(),
                pre.nonces(),
                pre.owner_id(),
                pre.fee_bps(),
                from@,
                to@,
                amount,
                valid_until,
                nonce,
                signature,
                now,
            );
            let fee = fee_of(amount, pre.fee_bps());
            o.2 is Ok ==> {
                &&& bal(o.0, from@) == bal(pre.balances_map(), from@) - amount
                &&& bal(o.0, to@) == bal(pre.balances_map(), to@) + amount - fee
                &&& bal(o.0, pre.owner_id()) == bal(pre.balances_map(), pre.owner_id()) + fee
                &&& forall|x: Seq<u8>|
                    x != from@ && x != to@ && x != pre.owner_id() ==> bal(o.0, x) == bal(
                        pre.balances_map(),
                        x,
                    )
            }
        }),
{
    let m = pre.balances_map();
    let o = process_outcome(
        m,
        pre.nonces(),
        pre.owner_id(),
        pre.fee_bps(),
        from@,
        to@,
        amount,
        valid_until,
        nonce,
        signature,
        now,
    );
    if o.2 is Ok {
        crate::fees::lemma_fee_bounded(amount, pre.fee_bps());
        let feei = fee_of(amount, pre.fee_bps());
        let fee = feei as Balance;
        let net = (amount - feei) as Balance;
        let principal = transferred(m, from@, to@, net);
        assert(bal(principal, from@) == bal(m, from@) - net);
        assert(bal(principal, to@) == bal(m, to@) + net);
        assert(bal(principal, pre.owner_id()) == bal(m, pre.owner_id()));
        if fee > 0 {
            pre.balances.lemma_pair_bounded(pre.owner_id(), from@);
            assert(bal(m, pre.owner_id()) + fee <= pre.supply());
            assert(transfer_admissible(principal, from@, pre.owner_id(), fee));
            let settled = transferred(principal, from@, pre.owner_id(), fee);
            assert(bal(settled, from@) == bal(principal, from@) - fee);
            assert(bal(settled, pre.owner_id()) == bal(principal, pre.owner_id()) + fee);
            assert(bal(settled, to@) == bal(principal, to@));
        }
    }
}

/// Replay protection: when a payload is accepted, submitting the identical
/// payload again from the resulting nonce state is rejected as a replay
/// while it is unexpired, whatever happened to balances, admin or fee rate
/// in between.
pub proof fn lemma_replay_rejected(
    balances1: Map<Seq<u8>, Balance>,
    nonces1: Set<Seq<u8>>,
    owner1: Seq<u8>,
    fee_bps1: u16,
    balances2: Map<Seq<u8>, Balance>,
    owner2: Seq<u8>,
    fee_bps2: u16,
    from: Seq<u8>,
    to: Seq<u8>,
    amount: Balance,
    valid_until: u64,
    nonce: Seq<u8>,
    signature: Seq<u8>,
    now1: u64,
    now2: u64,
)
    requires
        process_outcome(
            balances1,
            nonces1,
            owner1,
            fee_bps1,
            from,
            to,
            amount,
            valid_until,
            nonce,
            signature,
            now1,
        ).2 is Ok,
        now2 <= valid_until,
    ensures
        ({
            let committed = process_outcome(
                balances1,
                nonces1,
                owner1,
                fee_bps1,
                from,
                to,
                amount,
                valid_until,
                nonce,
                signature,
                now1,
            ).1;
            let again = process_outcome(
                balances2,
                committed,
                owner2,
                fee_bps2,
                from,
                to,
                amount,
                valid_until,
                nonce,
                signature,
                now2,
            );
            again.2 == Err::<(), Error>(Error::NonceAlreadyUsed) && again.0 == balances2
                && again.1 == committed
        }),
{
}

/// Nonce permanence: no processing call removes a used nonce key, an
/// accepted or failed-after-commit call consumes exactly its payload's key,
/// and a call rejected before the commit leaves the registry as it was.
pub proof fn lemma_nonce_permanence(
    balances: Map<Seq<u8>, Balance>,
    nonces: Set<Seq<u8>>,
    owner: Seq<u8>,
    fee_bps: u16,
    from: Seq<u8>,
    to: Seq<u8>,
    amount: Balance,
    valid_until: u64,
    nonce: Seq<u8>,
    signature: Seq<u8>,
    now: u64,
)
    ensures
        ({
            let o = process_outcome(
                balances,
                nonces,
                owner,
                fee_bps,
                from,
                to,
                amount,
                valid_until,
                nonce,
                signature,
                now,
            );
            &&& nonces.subset_of(o.1)
            &&& (o.2 is Ok || o.2 == Err::<(), Error>(Error::TransferFailed)) ==> o.1
                == nonces.insert(nonce_key_of(from, nonce))
            &&& !(o.2 is Ok || o.2 == Err::<(), Error>(Error::TransferFailed)) ==> o.1 == nonces
        }),
{
}

/// The token error an inadmissible transfer raises.
pub open spec fn transfer_error(
    m: Map<Seq<u8>, Balance>,
    from: Seq<u8>,
    to: Seq<u8>,
    v: Balance,
) -> Error {
    if bal(m, from) < v {
        Error::PSP22(PSP22Error::InsufficientBalance)
    } else {
        Error::ArithmeticOverflow
    }
}

} // verus!
