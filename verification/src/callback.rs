//! The completion handler: the only component that observes how a submitted
//! provisioning chain settled. The chain's already-committed steps cannot be
//! rolled back, so the only corrective action is financial: on failure the
//! original deposit is refunded to the original caller.

use vstd::prelude::*;

use crate::provision::{plan_settles_deposit, ProvisionPlan};
use crate::registry::FactoryContract;

verus! {

/// A compensating transfer the host must perform: return `amount` to
/// `account_id`.
#[derive(Debug)]
pub struct Refund {
    /// The original caller of the failed provisioning.
    pub account_id: String,
    /// The deposit that caller originally attached.
    pub amount: u128,
}

/// The compensating transfer a settled chain demands: none on success, the
/// whole closed-over deposit back to the closed-over caller on failure.
pub open spec fn refund_of(
    promise_success: bool,
    account_id: Seq<char>,
    amount: u128,
) -> Option<(Seq<char>, u128)> {
    if promise_success {
        None
    } else {
        Some((account_id, amount))
    }
}

impl FactoryContract {
    /// Settles a provisioning chain: reports its boolean outcome, and on
    /// failure demands the refund of the original deposit to the original
    /// caller. On success no funds move: the deposit was already forwarded
    /// by the chain itself.
    ///
    /// `account_id` and `amount` are the values the provisioner closed over
    /// when it registered the callback; `promise_success` is the host's
    /// report on the chain. The host shim restricts this callback to the
    /// factory's own chain, and performs the returned transfer.
    pub fn after_create(promise_success: bool, account_id: String, amount: u128) -> (r: (
        bool,
        Option<Refund>,
    ))
        ensures
            r.0 == promise_success,
            (r.1 matches Some(rf) ==> (rf.account_id@ == account_id@ && rf.amount == amount)),
            (match refund_of(promise_success, account_id@, amount) {
                None => r.1 is None,
                Some(_) => r.1 is Some,
            }),
    {
        if promise_success {
            (true, None)
        } else {
            (false, Some(Refund { account_id, amount }))
        }
    }
}

/// The value a settled provisioning moves out of the factory: on success the
/// forwarded deposit, on failure the compensating refund.
pub open spec fn settlement_outflow(plan: ProvisionPlan, chain_succeeded: bool) -> u128 {
    if chain_succeeded {
        plan.deposit
    } else {
        plan.callback.amount
    }
}

/// Law: however a submitted chain settles, the factory pays out exactly the
/// deposit the caller attached — forwarded whole to the new account on
/// success, refunded whole to the original caller on failure — and never its
/// own funds. The premises are what `create` guarantees of every plan it
/// returns.
pub proof fn lemma_factory_balance_preserved(
    plan: ProvisionPlan,
    caller: Seq<char>,
    attached_deposit: u128,
    chain_succeeded: bool,
)
    requires
        plan_settles_deposit(plan, caller, attached_deposit),
    ensures
        settlement_outflow(plan, chain_succeeded) == attached_deposit,
        chain_succeeded ==> refund_of(chain_succeeded, plan.callback.account_id@, plan.callback.amount) is None,
        !chain_succeeded ==> refund_of(chain_succeeded, plan.callback.account_id@, plan.callback.amount)
            == Some((caller, attached_deposit)),
{
}

} // verus!
