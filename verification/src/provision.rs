//! The account provisioner: validates a `create` request, derives the
//! deterministic sub-account identity, and lays out the inseparable chain of
//! host operations — create account, transfer the deposit, deploy the stored
//! code, optionally call the initializer — ending in the completion callback.
//!
//! The chain itself is asynchronous host work: the library only decides it.
//! A returned [`ProvisionPlan`] is the chain as data, for the thin host shim
//! to submit; a rejection means no step of the chain is ever issued.

use vstd::prelude::*;
use vstd::string::StringExecFns;

use crate::errors::FactoryError;
use crate::gas::{plan_gas, gas_sufficient, AFTER_CREATE_GAS, BEFORE_CREATE_GAS};
use crate::registry::FactoryContract;

verus! {

/// Deposit attached to chain calls that carry no value of their own.
pub const NO_DEPOSIT: u128 = 0;

/// The optional initializer call at the end of the provisioning chain.
#[derive(Debug)]
pub struct InitCall {
    /// The function to call on the new account.
    pub function: String,
    /// The arguments handed to that function.
    pub args: String,
    /// The deposit attached to the call; the initializer gets no value of
    /// its own, the whole attached deposit travels with the transfer step.
    pub deposit: u128,
    /// The gas offered to the call: the allowance minus both reservations.
    pub gas: u64,
}

/// The completion callback registered behind the chain. It closes over the
/// original caller and the attached deposit, so that a failed chain can be
/// compensated by a refund.
#[derive(Debug)]
pub struct CallbackCall {
    /// The original caller, to be refunded if the chain fails.
    pub account_id: String,
    /// The originally attached deposit, the amount of that refund.
    pub amount: u128,
    /// The deposit attached to the callback call itself.
    pub deposit: u128,
    /// The gas reserved for the callback.
    pub gas: u64,
}

/// The provisioning chain as data: one `create` request, validated and laid
/// out, ready for the host to run. Its steps execute strictly in order:
/// create the account, transfer the deposit, deploy the code, optionally call
/// the initializer, then the completion callback, which runs on both success
/// and failure.
#[derive(Debug)]
pub struct ProvisionPlan {
    /// The derived sub-account: `<name>.<factory account>`.
    pub target_account_id: String,
    /// The caller's whole attached deposit, forwarded to the new account.
    pub deposit: u128,
    /// The stored code, deployed to the new account.
    pub code: Vec<u8>,
    /// The initializer call, when the request supplied one.
    pub init_call: Option<InitCall>,
    /// The trailing completion callback.
    pub callback: CallbackCall,
}

/// The rejection a `create` request receives, if any: a one-sided
/// initializer pair, then a missing code blob, then an insufficient gas
/// allowance, checked in that order before any side effect.
pub open spec fn create_rejection(
    code_present: bool,
    has_init_function: bool,
    has_init_args: bool,
    prepaid_gas: u64,
) -> Option<FactoryError> {
    if has_init_function != has_init_args {
        Some(FactoryError::InvalidArguments)
    } else if !code_present {
        Some(FactoryError::NotConfigured)
    } else if !gas_sufficient(prepaid_gas) {
        Some(FactoryError::InsufficientGas)
    } else {
        None
    }
}

/// What `create` guarantees of every plan it returns for a caller who
/// attached `deposit`: the plan forwards the whole deposit to the new
/// account, and its callback closes over the original caller and that same
/// deposit.
pub open spec fn plan_settles_deposit(
    plan: ProvisionPlan,
    caller: Seq<char>,
    deposit: u128,
) -> bool {
    plan.deposit == deposit && plan.callback.account_id@ == caller && plan.callback.amount
        == deposit
}

/// Derives the sub-account identity `<name>.<current account>` of a request.
pub fn derive_account_id(name: &str, current_account_id: &str) -> (r: String)
    ensures
        r@ == name@ + "."@ + current_account_id@,
{
    let mut s = name.to_owned();
    s.append(".");
    s.append(current_account_id);
    s
}

/// Copies a byte blob.
pub(crate) fn copy_bytes(v: &Vec<u8>) -> (r: Vec<u8>)
    ensures
        r@ == v@,
{
    let mut r: Vec<u8> = Vec::new();
    let mut i: usize = 0;
    while i < v.len()
        invariant
            i <= v.len(),
            r@ == v@.subrange(0, i as int),
        decreases v.len() - i,
    {
        r.push(v[i]);
        assert(r@ =~= v@.subrange(0, i + 1));
        i = i + 1;
    }
    proof {
        assert(r@ =~= v@);
    }
    r
}

impl FactoryContract {
    /// Validates a `create` request and lays out its provisioning chain.
    ///
    /// The initializer function and its arguments must come as a matched
    /// pair, code must already be stored, and the gas allowance must cover
    /// both fixed reservations — in that order, each failure rejecting the
    /// request before any side effect. On success the plan forwards the whole
    /// attached deposit, deploys the stored code, offers the remaining gas to
    /// the initializer, and registers the callback that settles the chain.
    /// The factory's own state is never changed.
    pub fn create(
        &mut self,
        name: String,
        init_function: Option<String>,
        init_args: Option<String>,
        current_account_id: &str,
        predecessor_account_id: &str,
        attached_deposit: u128,
        prepaid_gas: u64,
    ) -> (r: Result<ProvisionPlan, FactoryError>)
        ensures
            final(self).code == old(self).code,
            r is Err <==> create_rejection(
                old(self).code is Some,
                init_function is Some,
                init_args is Some,
                prepaid_gas,
            ) is Some,
            (r matches Err(e) ==> create_rejection(
                old(self).code is Some,
                init_function is Some,
                init_args is Some,
                prepaid_gas,
            ) == Some(e)),
            (r matches Ok(plan) ==> (
            {
                &&& plan.target_account_id@ == name@ + "."@ + current_account_id@
                &&& plan.deposit == attached_deposit
                &&& (old(self).code matches Some(c) && plan.code@ == c@)
                &&& (init_function matches Some(f) ==> (plan.init_call matches Some(ic) && {
                    &&& ic.function@ == f@
                    &&& (init_args matches Some(a) && ic.args@ == a@)
                    &&& ic.deposit == NO_DEPOSIT
                    &&& ic.gas == prepaid_gas - BEFORE_CREATE_GAS - AFTER_CREATE_GAS
                }))
                &&& (init_function is None ==> plan.init_call is None)
                &&& plan.callback.account_id@ == predecessor_account_id@
                &&& plan.callback.amount == attached_deposit
                &&& plan.callback.deposit == NO_DEPOSIT
                &&& plan.callback.gas == AFTER_CREATE_GAS
                &&& plan_settles_deposit(plan, predecessor_account_id@, attached_deposit)
            }
            )),
    {
        if init_function.is_some() != init_args.is_some() {
            return Err(FactoryError::InvalidArguments);
        }
        let code = match &self.code {
            Some(c) => copy_bytes(c),
            None => {
                return Err(FactoryError::NotConfigured);
            },
        };
        let gas_plan = match plan_gas(prepaid_gas) {
            Ok(g) => g,
            Err(e) => {
                return Err(e);
            },
        };
        let target_account_id = derive_account_id(name.as_str(), current_account_id);
        let init_call = match init_function {
            Some(function) => Some(
                InitCall {
                    function,
                    args: init_args.unwrap(),
                    deposit: NO_DEPOSIT,
                    gas: gas_plan.init_gas,
                },
            ),
            None => None,
        };
        Ok(
            ProvisionPlan {
                target_account_id,
                deposit: attached_deposit,
                code,
                init_call,
                callback: CallbackCall {
                    account_id: predecessor_account_id.to_owned(),
                    amount: attached_deposit,
                    deposit: NO_DEPOSIT,
                    gas: gas_plan.callback_gas,
                },
            },
        )
    }
}

/// Law: with a matched initializer pair but no stored code, a `create`
/// request is always rejected as not configured, whatever the gas allowance
/// or deposit; a rejected request yields no plan, so no account step is ever
/// issued.
pub proof fn lemma_create_requires_configuration(
    has_init_function: bool,
    has_init_args: bool,
    prepaid_gas: u64,
)
    requires
        has_init_function == has_init_args,
    ensures
        create_rejection(false, has_init_function, has_init_args, prepaid_gas) == Some(
            FactoryError::NotConfigured,
        ),
{
}

/// Law: a one-sided initializer pair is always rejected as invalid, whatever
/// code is stored and whatever the gas allowance; the attached deposit never
/// even enters the decision, and no account step is ever issued.
pub proof fn lemma_one_sided_initializer_rejected(
    code_present: bool,
    has_init_function: bool,
    has_init_args: bool,
    prepaid_gas: u64,
)
    requires
        has_init_function != has_init_args,
    ensures
        create_rejection(code_present, has_init_function, has_init_args, prepaid_gas) == Some(
            FactoryError::InvalidArguments,
        ),
{
}

} // verus!
