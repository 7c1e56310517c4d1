use vstd::prelude::*;
use crate::error::ContractError;
use crate::state::{Pledge, PledgeStore};

verus! {

/// Retrieves the pledge record under `pledge_id`; fails with `PledgeNotFound`
/// if no record exists there.
pub fn pledge(store: &PledgeStore, pledge_id: &str) -> (r: Result<Pledge, ContractError>)
    ensures
        match r {
            Ok(p) => store@.contains_key(pledge_id@) && p@ == store@[pledge_id@],
            Err(e) => !store@.contains_key(pledge_id@) && e == ContractError::PledgeNotFound,
        },
{
    match store.get(pledge_id) {
        Some(p) => Ok(p.clone()),
        None => Err(ContractError::PledgeNotFound),
    }
}

} // verus!
