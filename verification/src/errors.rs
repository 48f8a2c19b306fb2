//! The ways a factory operation can be rejected before any side effect is
//! attempted. Each rejection aborts the whole invocation cleanly; the host
//! reverts it, so no state changes and attached value returns to the caller.

use vstd::prelude::*;

verus! {

/// A pre-dispatch rejection of a factory operation.
#[derive(Clone, Copy, Debug, PartialEq, Eq, Structural)]
pub enum FactoryError {
    /// `set_code` was invoked by an identity other than the factory's own.
    PermissionDenied,
    /// `set_code` was invoked after code had already been stored.
    AlreadyConfigured,
    /// `create` was invoked before any code was stored.
    NotConfigured,
    /// Exactly one of the initializer function and its arguments was supplied.
    InvalidArguments,
    /// The attached gas allowance is below the sum of the fixed reservations.
    InsufficientGas,
}

impl FactoryError {
    /// The message the factory aborts with when the rejection is surfaced.
    pub fn message(&self) -> (r: String)
        ensures
            *self is PermissionDenied ==> r@ == "expected current_account_id as caller"@,
            *self is AlreadyConfigured ==> r@ == "set_code has already been called"@,
            *self is NotConfigured ==> r@ == "code not set, call set_code first"@,
            *self is InvalidArguments ==> r@ == "expected both init_function and init_args"@,
            *self is InsufficientGas ==> r@ == "not enough gas"@,
    {
        match self {
            FactoryError::PermissionDenied => "expected current_account_id as caller".to_owned(),
            FactoryError::AlreadyConfigured => "set_code has already been called".to_owned(),
            FactoryError::NotConfigured => "code not set, call set_code first".to_owned(),
            FactoryError::InvalidArguments => "expected both init_function and init_args".to_owned(),
            FactoryError::InsufficientGas => "not enough gas".to_owned(),
        }
    }
}

} // verus!
