//! The code registry: the factory's persistent state, a single write-once
//! slot holding the deployable code, together with the one-shot configuration
//! gate `set_code` and the hash view `get_code_hash`.

use vstd::prelude::*;

use crate::digest::{sha256, sha256_of};
use crate::errors::FactoryError;

verus! {

/// The factory's persistent state: the single key-value slot that holds the
/// deployable code. Absence of the code is the valid "not configured" state.
pub struct FactoryContract {
    /// The stored code blob; `None` until `set_code` has succeeded.
    pub code: Option<Vec<u8>>,
}

impl Default for FactoryContract {
    /// A fresh factory starts unconfigured.
    fn default() -> (r: Self)
        ensures
            r.code is None,
    {
        FactoryContract { code: None }
    }
}

/// `set_code` succeeds exactly when the caller is the factory itself and no
/// code has been stored yet.
pub open spec fn set_code_allowed(
    c: FactoryContract,
    current_account_id: Seq<char>,
    predecessor_account_id: Seq<char>,
) -> bool {
    predecessor_account_id == current_account_id && c.code is None
}

/// The value `get_code_hash` reads: absent while unconfigured, otherwise the
/// digest of the stored code.
pub open spec fn code_hash_view(c: FactoryContract) -> Option<Seq<u8>> {
    match c.code {
        Some(code) => Some(sha256_of(code@)),
        None => None,
    }
}

/// Stores the deployable code, exactly once, and only for the factory itself.
///
/// The caller's identity must equal the factory's own account identity, and
/// no code may be stored yet; otherwise the request is rejected and the state
/// is untouched. On success the input becomes the stored code.
pub fn set_code(
    contract: &mut FactoryContract,
    current_account_id: &str,
    predecessor_account_id: &str,
    input: Vec<u8>,
) -> (r: Result<bool, FactoryError>)
    ensures
        r is Ok <==> set_code_allowed(*old(contract), current_account_id@, predecessor_account_id@),
        r is Ok ==> (r == Ok::<bool, FactoryError>(true) && (final(contract).code matches Some(c)
            && c@ == input@)),
        predecessor_account_id@ != current_account_id@ ==> (r == Err::<bool, FactoryError>(
            FactoryError::PermissionDenied,
        ) && final(contract).code == old(contract).code),
        predecessor_account_id@ == current_account_id@ && old(contract).code is Some ==> (r
            == Err::<bool, FactoryError>(FactoryError::AlreadyConfigured) && final(contract).code
            == old(contract).code),
{
    if !account_ids_equal(predecessor_account_id, current_account_id) {
        return Err(FactoryError::PermissionDenied);
    }
    if contract.code.is_some() {
        return Err(FactoryError::AlreadyConfigured);
    }
    contract.code = Some(input);
    Ok(true)
}

/// Whether two account identities are the same.
pub fn account_ids_equal(a: &str, b: &str) -> (r: bool)
    ensures
        r == (a@ == b@),
{
    let a_owned = a.to_owned();
    let b_owned = b.to_owned();
    a_owned == b_owned
}

/// Law: before any code is stored the code hash reads absent; after a
/// `set_code` has succeeded on input `input`, it reads exactly the digest of
/// `input`.
pub proof fn lemma_code_hash_lifecycle(
    before: FactoryContract,
    after: FactoryContract,
    input: Vec<u8>,
)
    requires
        before.code is None,
        after.code matches Some(c) && c@ == input@,
    ensures
        code_hash_view(before) is None,
        code_hash_view(after) == Some(sha256_of(input@)),
{
}

/// Law: once code is stored, no later `set_code` is allowed, whoever calls:
/// the stored code, and with it its hash, can never change again.
pub proof fn lemma_set_code_write_once(
    configured: FactoryContract,
    current_account_id: Seq<char>,
    predecessor_account_id: Seq<char>,
)
    requires
        configured.code is Some,
    ensures
        !set_code_allowed(configured, current_account_id, predecessor_account_id),
{
}

/// Law: `set_code` from any identity other than the factory's own is never
/// allowed, whatever the state, so it can neither store nor replace code.
pub proof fn lemma_set_code_self_only(
    c: FactoryContract,
    current_account_id: Seq<char>,
    predecessor_account_id: Seq<char>,
)
    requires
        predecessor_account_id != current_account_id,
    ensures
        !set_code_allowed(c, current_account_id, predecessor_account_id),
{
}

impl FactoryContract {
    /// Reads the content hash of the stored code, or `None` if no code has
    /// been stored. Pure: the state is not changed.
    pub fn get_code_hash(&self) -> (r: Option<Vec<u8>>)
        ensures
            r is Some <==> code_hash_view(*self) is Some,
            (r matches Some(h) ==> (code_hash_view(*self) matches Some(d) && h@ == d && h@.len()
                == 32)),
    {
        match &self.code {
            Some(code) => Some(sha256(code.as_slice())),
            None => None,
        }
    }
}

} // verus!
