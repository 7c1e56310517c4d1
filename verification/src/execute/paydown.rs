use vstd::prelude::*;
use vstd::string::StringExecFns;
use crate::error::ContractError;
use crate::gateway;
use crate::msg::{Attribute, ContractResponse, MessageContext};
use crate::state::{Pledge, PledgeStatus, PledgeStore, PledgeView};

verus! {

/// What the paydown-request transition decides: the pledge must exist, the
/// registry's owner query must have answered, the caller must be that owner
/// of the originator right-token, and the pledge must sit in status
/// `Approved`; then the record advances to `PaydownRequested`. A failed owner
/// query propagates verbatim as an infrastructure error.
pub open spec fn paydown_step(
    pledges: Map<Seq<char>, PledgeView>,
    ctx: MessageContext,
    pledge_id: Seq<char>,
    nft_owner: Result<String, String>,
) -> Result<Map<Seq<char>, PledgeView>, ContractError> {
    if !pledges.contains_key(pledge_id) {
        Err(ContractError::PledgeNotFound)
    } else {
        match nft_owner {
            Err(m) => Err(ContractError::Std(m)),
            Ok(owner) => {
                if owner@ != ctx.sender@ {
                    Err(ContractError::Unauthorized)
                } else {
                    let p = pledges[pledge_id];
                    if p.status != PledgeStatus::Approved {
                        Err(ContractError::InvalidPledgeStatus)
                    } else {
                        Ok(
                            pledges.insert(
                                pledge_id,
                                PledgeView {
                                    amount: p.amount,
                                    marker_address: p.marker_address,
                                    originator_nft_id: p.originator_nft_id,
                                    lender_nft_id: p.lender_nft_id,
                                    status: PledgeStatus::PaydownRequested,
                                },
                            ),
                        )
                    }
                }
            },
        }
    }
}

/// The paydown-request transition emits no instructions — it is a request,
/// not a settlement — and carries the method name and the pledge identifier.
pub open spec fn paydown_response_ok(resp: ContractResponse, pledge_id: Seq<char>) -> bool {
    &&& resp.messages@.len() == 0
    &&& resp.attributes@.len() == 2
    &&& resp.attributes@[0].key@ == "method"@ && resp.attributes@[0].value@ == "paydown"@
    &&& resp.attributes@[1].key@ == "id"@ && resp.attributes@[1].value@ == pledge_id
}

/// Request paydown: only the current holder of the originator right-token may
/// ask to pay the pledge off. `nft_owner` is the registry's fresh answer for
/// the owner of that token, queried for this operation and never cached.
pub fn paydown(
    store: &mut PledgeStore,
    ctx: &MessageContext,
    pledge_id: String,
    nft_owner: &Result<String, String>,
) -> (r: Result<ContractResponse, ContractError>)
    ensures
        ({
            let step = paydown_step(old(store)@, *ctx, pledge_id@, *nft_owner);
            match r {
                Ok(resp) => {
                    &&& step matches Ok(m) && final(store)@ == m
                    &&& paydown_response_ok(resp, pledge_id@)
                },
                Err(e) => {
                    &&& step matches Err(se) && e == se
                    &&& final(store)@ == old(store)@
                },
            }
        }),
{
    let rec: Pledge = match store.get(pledge_id.as_str()) {
        None => {
            return Err(ContractError::PledgeNotFound);
        },
        Some(p) => p.clone(),
    };
    let owner = match nft_owner {
        Err(m) => {
            return Err(ContractError::Std(m.clone()));
        },
        Ok(owner) => owner,
    };
    if let Err(e) = gateway::check_nft_owner(owner, &ctx.sender) {
        return Err(e);
    }
    match rec.status {
        PledgeStatus::Approved => {},
        _ => {
            return Err(ContractError::InvalidPledgeStatus);
        },
    }
    let updated = Pledge {
        amount: rec.amount,
        marker_address: rec.marker_address,
        originator_nft_id: rec.originator_nft_id,
        lender_nft_id: rec.lender_nft_id,
        status: PledgeStatus::PaydownRequested,
    };
    proof {
        assert(updated@ =~= PledgeView {
            status: PledgeStatus::PaydownRequested,
            ..old(store)@[pledge_id@]
        });
    }
    store.save(pledge_id.clone(), updated);

    let messages: Vec<crate::msg::ProvMsg> = Vec::new();
    let mut attributes: Vec<Attribute> = Vec::new();
    attributes.push(
        Attribute { key: String::from_str("method"), value: String::from_str("paydown") },
    );
    attributes.push(Attribute { key: String::from_str("id"), value: pledge_id });
    Ok(ContractResponse { messages, attributes })
}

} // verus!
