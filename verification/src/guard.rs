use vstd::prelude::*;
use crate::error::ContractError;
use crate::state::Addr;

verus! {

/// Whether `caller` may mutate a registry that `owner` owns.
pub open spec fn is_authorized(caller: Seq<char>, owner: Seq<char>) -> bool {
    caller == owner
}

/// Lets the owner through and nobody else. Reads nothing but its arguments.
pub fn authorize(caller: &Addr, owner: &Addr) -> (verdict: Result<(), ContractError>)
    ensures
        verdict == if is_authorized(caller@, owner@) {
            Ok::<(), ContractError>(())
        } else {
            Err::<(), ContractError>(ContractError::Unauthorized)
        },
{
    if caller == owner {
        Ok(())
    } else {
        Err(ContractError::Unauthorized)
    }
}

} // verus!
