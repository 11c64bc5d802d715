//! The escrow state machine: creation, claim validation and fund
//! distribution. Every operation is a pure transition: the caller's
//! identity, the clock reading and the custodied balance come in as plain
//! values, and the fund movements go out as a list of scheduled transfers
//! for the surrounding runtime to execute.

use vstd::prelude::*;

use crate::hashing::{digests_equal, sha256_digest, sha256_of};

verus! {

/// Phase of a swap instance. `Init` is the initial state; `Revert` and
/// `Commit` are terminal. `Claim` marks a claim attempt in progress; it is
/// never left behind as a stable outcome.
#[derive(Clone, Copy, Debug, PartialEq, Eq, Structural)]
pub enum State {
    Init,
    Claim,
    Revert,
    Commit,
}

impl State {
    /// A state from which no further transition is possible.
    pub open spec fn is_terminal(self) -> bool {
        self == State::Revert || self == State::Commit
    }
}

/// Why a call against the escrow was rejected. A rejected call never
/// mutates the instance.
#[derive(Clone, Copy, Debug, PartialEq, Eq, Structural)]
pub enum SwapError {
    /// A claim was attempted while the instance was not in `Init`.
    InvalidState,
    /// Someone other than the recipient claimed before the deadline.
    Unauthorized,
    /// The digest of the presented secret differs from the commitment.
    SecretMismatch,
    /// The value attached at creation was below the required funding.
    InsufficientDeposit,
}

/// One transfer instruction scheduled toward the ledger. Scheduling is not
/// completion: the runtime executes these after the transition that
/// produced them is durably recorded.
#[derive(Debug, PartialEq, Eq)]
pub struct Transfer {
    /// Account the funds go to.
    pub to: String,
    /// How much is moved, in the ledger's base unit.
    pub amount: u128,
}

/// One hash-timelock escrow instance: a custodied deposit, a recipient who
/// may claim it by revealing the secret behind `secret_hash` before the
/// deadline, and a depositor to whom the funds revert otherwise.
#[derive(Debug)]
pub struct AtomicSwap {
    /// Principal owed to `recipient` on a successful claim.
    pub amount: u128,
    /// Funder of the escrow; receives refunds and any surplus.
    pub depositor: String,
    /// The only account allowed to claim before the deadline.
    pub recipient: String,
    /// SHA-256 commitment to the unlocking secret.
    pub secret_hash: Vec<u8>,
    /// Last clock value at which a claim by `recipient` is accepted.
    pub lock_free: u64,
    /// Current phase of the instance.
    pub state: State,
}

impl AtomicSwap {
    /// Structural soundness of an instance: a positive principal and a
    /// full-length digest as commitment. Established at creation and
    /// preserved by every transition.
    pub open spec fn wf(self) -> bool {
        &&& self.amount > 0
        &&& self.secret_hash@.len() == 32
    }

    /// The guard under which a claim succeeds: the instance is still in
    /// `Init`, and either the deadline has passed (anyone may trigger the
    /// refund) or the caller is the recipient presenting the committed
    /// secret.
    pub open spec fn claim_succeeds(self, caller: Seq<char>, secret: Seq<u8>, height: u64) -> bool {
        &&& self.state == State::Init
        &&& {
            ||| height > self.lock_free
            ||| (caller == self.recipient@ && sha256_of(secret) == self.secret_hash@)
        }
    }

    /// The fields fixed at creation, unchanged between two values of the
    /// instance; only `state` may ever move.
    pub open spec fn terms_unchanged(self, other: AtomicSwap) -> bool {
        &&& self.amount == other.amount
        &&& self.depositor@ == other.depositor@
        &&& self.recipient@ == other.recipient@
        &&& self.secret_hash@ == other.secret_hash@
        &&& self.lock_free == other.lock_free
    }

    /// Creates an escrow in `Init`, with the deadline `lock_time` units past
    /// the current clock. `margin` is the funding policy: the value attached
    /// by the creator must cover the principal plus this disclosed surplus
    /// minimum, or creation is rejected with `InsufficientDeposit`.
    pub fn new(
        amount: u128,
        recipient: String,
        secret_hash: Vec<u8>,
        lock_time: u64,
        depositor: String,
        attached_deposit: u128,
        current_height: u64,
        margin: u128,
    ) -> (result: Result<AtomicSwap, SwapError>)
        requires
            amount > 0,
            lock_time > 0,
            secret_hash@.len() == 32,
            current_height + lock_time <= u64::MAX,
            amount + margin <= u128::MAX,
        ensures
            match result {
                Ok(swap) => {
                    &&& attached_deposit >= amount + margin
                    &&& swap.amount == amount
                    &&& swap.depositor@ == depositor@
                    &&& swap.recipient@ == recipient@
                    &&& swap.secret_hash@ == secret_hash@
                    &&& swap.lock_free == current_height + lock_time
                    &&& swap.state == State::Init
                    &&& swap.wf()
                },
                Err(e) => {
                    &&& e == SwapError::InsufficientDeposit
                    &&& attached_deposit < amount + margin
                },
            },
    {
        if attached_deposit < amount + margin {
            return Err(SwapError::InsufficientDeposit);
        }
        Ok(AtomicSwap {
            amount,
            depositor,
            recipient,
            secret_hash,
            lock_free: current_height + lock_time,
            state: State::Init,
        })
    }

    /// The single mutating entry point after creation. Validates deadline,
    /// identity and secret in that order, records the terminal state, and
    /// returns the transfers to schedule: the full custodied balance back to
    /// the depositor past the deadline, or the principal to the recipient
    /// followed by the surplus to the depositor on a correct claim. A
    /// rejected call leaves the instance exactly as it was.
    pub fn claim(
        &mut self,
        secret: Vec<u8>,
        caller: String,
        current_height: u64,
        held_balance: u128,
    ) -> (result: Result<Vec<Transfer>, SwapError>)
        requires
            old(self).state == State::Init ==> held_balance >= old(self).amount,
        ensures
            final(self).terms_unchanged(*old(self)),
            result.is_ok() == old(self).claim_succeeds(caller@, secret@, current_height),
            result.is_err() ==> final(self).state == old(self).state,
            (old(self).state == State::Init && current_height > old(self).lock_free) ==> {
                &&& final(self).state == State::Revert
                &&& (result matches Ok(transfers) && {
                    &&& transfers@.len() == 1
                    &&& transfers@[0].to@ == old(self).depositor@
                    &&& transfers@[0].amount == held_balance
                })
            },
            (old(self).state == State::Init && current_height <= old(self).lock_free
                && caller@ == old(self).recipient@
                && sha256_of(secret@) == old(self).secret_hash@) ==> {
                &&& final(self).state == State::Commit
                &&& (result matches Ok(transfers) && {
                    &&& transfers@.len() == 2
                    &&& transfers@[0].to@ == old(self).recipient@
                    &&& transfers@[0].amount == old(self).amount
                    &&& transfers@[1].to@ == old(self).depositor@
                    &&& transfers@[1].amount == held_balance - old(self).amount
                })
            },
            (old(self).state != State::Init) <==> (result
                == Err::<Vec<Transfer>, SwapError>(SwapError::InvalidState)),
            (old(self).state == State::Init && current_height <= old(self).lock_free
                && caller@ != old(self).recipient@) <==> (result
                == Err::<Vec<Transfer>, SwapError>(SwapError::Unauthorized)),
            (old(self).state == State::Init && current_height <= old(self).lock_free
                && caller@ == old(self).recipient@
                && sha256_of(secret@) != old(self).secret_hash@) <==> (result
                == Err::<Vec<Transfer>, SwapError>(SwapError::SecretMismatch)),
    {
        if !(self.state == State::Init) {
            return Err(SwapError::InvalidState);
        }
        if current_height > self.lock_free {
            return Ok(self.revert(held_balance));
        }
        if !(caller == self.recipient) {
            return Err(SwapError::Unauthorized);
        }
        let digest = sha256_digest(&secret);
        if !digests_equal(&digest, &self.secret_hash) {
            return Err(SwapError::SecretMismatch);
        }
        Ok(self.commit(held_balance))
    }

    /// Whether the lock still holds: true while the current clock has not
    /// passed the deadline, so a claim is accepted only from the recipient;
    /// false once the deadline is past and only the refund path remains.
    /// A pure read, valid in any state.
    pub fn check_lock(&self, current_height: u64) -> (locked: bool)
        ensures
            locked == (current_height <= self.lock_free),
    {
        current_height <= self.lock_free
    }

    /// Current phase of the instance; a pure read.
    pub fn get_state(&self) -> (state: &State)
        ensures
            *state == self.state,
    {
        &self.state
    }

    /// Expiry path: records `Revert` and schedules the entire custodied
    /// balance back to the depositor.
    fn revert(&mut self, held_balance: u128) -> (transfers: Vec<Transfer>)
        requires
            old(self).state == State::Init,
        ensures
            final(self).terms_unchanged(*old(self)),
            final(self).state == State::Revert,
            transfers@.len() == 1,
            transfers@[0].to@ == old(self).depositor@,
            transfers@[0].amount == held_balance,
    {
        self.state = State::Revert;
        let mut transfers: Vec<Transfer> = Vec::new();
        transfers.push(Transfer { to: self.depositor.clone(), amount: held_balance });
        transfers
    }

    /// Success path: records `Commit` and schedules the principal to the
    /// recipient, then the surplus of the custodied balance to the
    /// depositor. The payout is scheduled no later than the surplus return.
    fn commit(&mut self, held_balance: u128) -> (transfers: Vec<Transfer>)
        requires
            old(self).state == State::Init,
            held_balance >= old(self).amount,
        ensures
            final(self).terms_unchanged(*old(self)),
            final(self).state == State::Commit,
            transfers@.len() == 2,
            transfers@[0].to@ == old(self).recipient@,
            transfers@[0].amount == old(self).amount,
            transfers@[1].to@ == old(self).depositor@,
            transfers@[1].amount == held_balance - old(self).amount,
    {
        self.state = State::Commit;
        let mut transfers: Vec<Transfer> = Vec::new();
        transfers.push(Transfer { to: self.recipient.clone(), amount: self.amount });
        transfers.push(Transfer { to: self.depositor.clone(), amount: held_balance - self.amount });
        transfers
    }
}

/// A failed claim with a wrong secret keeps the door open: if a claim
/// before the deadline by the recipient was rejected for a digest mismatch,
/// then on the instance as the rejected call left it — same terms, still
/// `Init` — a later claim by the recipient with the committed secret, still
/// before the deadline, satisfies the success guard.
pub proof fn lemma_retry_after_mismatch(
    before: AtomicSwap,
    after: AtomicSwap,
    wrong: Seq<u8>,
    right: Seq<u8>,
    first_height: u64,
    retry_height: u64,
)
    requires
        before.state == State::Init,
        first_height <= before.lock_free,
        sha256_of(wrong) != before.secret_hash@,
        after.terms_unchanged(before),
        after.state == before.state,
        sha256_of(right) == before.secret_hash@,
        retry_height <= before.lock_free,
    ensures
        !before.claim_succeeds(before.recipient@, wrong, first_height),
        after.claim_succeeds(after.recipient@, right, retry_height),
{
}

/// Terminal states are absorbing: once an instance stands in `Revert` or
/// `Commit`, no claim satisfies the success guard, whatever the caller,
/// secret or clock reading.
pub proof fn lemma_terminal_claim_never_succeeds(
    swap: AtomicSwap,
    caller: Seq<char>,
    secret: Seq<u8>,
    height: u64,
)
    requires
        swap.state.is_terminal(),
    ensures
        !swap.claim_succeeds(caller, secret, height),
{
}

} // verus!
