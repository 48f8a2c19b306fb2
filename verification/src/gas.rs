//! The gas budget planner: partitions the caller-supplied gas allowance of a
//! `create` call among the provisioning steps and the completion callback,
//! rejecting the request before any side effect when the allowance cannot
//! cover the fixed reservations.

use vstd::prelude::*;

use crate::errors::FactoryError;

verus! {

/// Gas reserved for the steps of the provisioning chain that precede the
/// optional initializer call.
pub const BEFORE_CREATE_GAS: u64 = 30_000_000_000_000;

/// Gas reserved for the completion callback that settles a provisioning.
pub const AFTER_CREATE_GAS: u64 = 10_000_000_000_000;

/// How a sufficient gas allowance is split: the remainder offered to the
/// optional initializer call, and the fixed reservation for the callback.
#[derive(Debug)]
pub struct GasPlan {
    /// Gas left for the initializer call after both fixed reservations.
    pub init_gas: u64,
    /// Gas reserved for the completion callback.
    pub callback_gas: u64,
}

/// Whether a gas allowance covers both fixed reservations.
pub open spec fn gas_sufficient(prepaid_gas: u64) -> bool {
    prepaid_gas >= BEFORE_CREATE_GAS + AFTER_CREATE_GAS
}

/// Splits the gas allowance of a `create` call, or rejects it.
///
/// The allowance must cover the reservation for the chain steps before the
/// initializer plus the reservation for the completion callback; whatever is
/// left is offered to the initializer call.
pub fn plan_gas(prepaid_gas: u64) -> (r: Result<GasPlan, FactoryError>)
    ensures
        r is Ok <==> gas_sufficient(prepaid_gas),
        (r matches Ok(p) ==> (p.init_gas == prepaid_gas - BEFORE_CREATE_GAS - AFTER_CREATE_GAS
            && p.callback_gas == AFTER_CREATE_GAS)),
        !gas_sufficient(prepaid_gas) ==> r == Err::<GasPlan, FactoryError>(
            FactoryError::InsufficientGas,
        ),
{
    if prepaid_gas < BEFORE_CREATE_GAS + AFTER_CREATE_GAS {
        Err(FactoryError::InsufficientGas)
    } else {
        Ok(
            GasPlan {
                init_gas: prepaid_gas - BEFORE_CREATE_GAS - AFTER_CREATE_GAS,
                callback_gas: AFTER_CREATE_GAS,
            },
        )
    }
}

} // verus!
