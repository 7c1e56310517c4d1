use vstd::prelude::*;
use crate::error::ContractError;
use crate::msg::QueryMsg;
use crate::state::{Pledge, PledgeStore};

pub mod pledge;

verus! {

/// Dispatches one read-only request against the pledge ledger.
pub fn route(store: &PledgeStore, msg: QueryMsg) -> (r: Result<Pledge, ContractError>)
    ensures
        ({
            match msg {
                QueryMsg::Pledge { id } => match r {
                    Ok(p) => store@.contains_key(id@) && p@ == store@[id@],
                    Err(e) => !store@.contains_key(id@) && e == ContractError::PledgeNotFound,
                },
            }
        }),
{
    match msg {
        QueryMsg::Pledge { id } => pledge::pledge(store, id.as_str()),
    }
}

} // verus!
