use vstd::prelude::*;
use vstd::string::StringExecFns;
use crate::error::ContractError;
use crate::gateway;
use crate::msg::{Attribute, ContractResponse, MessageContext, ProvMsg};
use crate::state::{ContractConfiguration, Pledge, PledgeStatus, PledgeStore, PledgeView};
use crate::util;
use crate::util::NftType;

verus! {

/// What the approve-paydown transition decides: the pledge must exist, the
/// registry's owner query must have answered, the caller must be that owner
/// of the lender right-token, and the pledge must sit in status `Approved`;
/// then the record advances to `PaydownApproved`, the final settlement. A
/// failed owner query propagates verbatim as an infrastructure error.
pub open spec fn approve_paydown_step(
    pledges: Map<Seq<char>, PledgeView>,
    ctx: MessageContext,
    pledge_id: Seq<char>,
    nft_owner: Result<String, String>,
) -> Result<Map<Seq<char>, PledgeView>, ContractError> {
    if !pledges.contains_key(pledge_id) {
        Err(ContractError::PledgeNotFound)
    } else {
        match nft_owner {
            Err(m) => Err(ContractError::Std(m)),
            Ok(owner) => {
                if owner@ != ctx.sender@ {
                    Err(ContractError::Unauthorized)
                } else {
                    let p = pledges[pledge_id];
                    if p.status != PledgeStatus::Approved {
                        Err(ContractError::InvalidPledgeStatus)
                    } else {
                        Ok(
                            pledges.insert(
                                pledge_id,
                                PledgeView {
                                    amount: p.amount,
                                    marker_address: p.marker_address,
                                    originator_nft_id: p.originator_nft_id,
                                    lender_nft_id: p.lender_nft_id,
                                    status: PledgeStatus::PaydownApproved,
                                },
                            ),
                        )
                    }
                }
            },
        }
    }
}

/// The approve-paydown transition retires both right-tokens: it emits exactly
/// two burn instructions, for the recorded originator right-token and for the
/// lender right-token derived from the same marker account.
pub open spec fn approve_paydown_messages_ok(
    resp: ContractResponse,
    config: ContractConfiguration,
    ctx: MessageContext,
    p: PledgeView,
) -> bool {
    let lender_token = util::nft_id(ctx.contract_address@, p.marker_address, NftType::LENDER);
    &&& resp.messages@.len() == 2
    &&& resp.messages@[0] matches ProvMsg::BurnNft { class_id, token_id, from_address }
        && class_id@ == config.nft_class_id@ && token_id@ == p.originator_nft_id && from_address@
        == ctx.contract_address@
    &&& resp.messages@[1] matches ProvMsg::BurnNft { class_id, token_id, from_address }
        && class_id@ == config.nft_class_id@ && token_id@ == lender_token && from_address@
        == ctx.contract_address@
}

/// The approve-paydown transition's descriptive metadata: the method name and
/// the pledge identifier.
pub open spec fn approve_paydown_attributes_ok(resp: ContractResponse, pledge_id: Seq<char>) -> bool {
    &&& resp.attributes@.len() == 2
    &&& resp.attributes@[0].key@ == "method"@ && resp.attributes@[0].value@ == "paydown"@
    &&& resp.attributes@[1].key@ == "id"@ && resp.attributes@[1].value@ == pledge_id
}

/// Approve paydown: only the current holder of the lender right-token may
/// approve the payoff, completing the lifecycle. `nft_owner` is the
/// registry's fresh answer for the owner of that token, queried for this
/// operation and never cached. On success both right-tokens are retired and
/// the record reaches `PaydownApproved`.
pub fn approve_paydown(
    store: &mut PledgeStore,
    config: &ContractConfiguration,
    ctx: &MessageContext,
    pledge_id: String,
    nft_owner: &Result<String, String>,
) -> (r: Result<ContractResponse, ContractError>)
    ensures
        ({
            let step = approve_paydown_step(old(store)@, *ctx, pledge_id@, *nft_owner);
            match r {
                Ok(resp) => {
                    &&& step matches Ok(m) && final(store)@ == m
                    &&& approve_paydown_messages_ok(resp, *config, *ctx, old(store)@[pledge_id@])
                    &&& approve_paydown_attributes_ok(resp, pledge_id@)
                },
                Err(e) => {
                    &&& step matches Err(se) && e == se
                    &&& final(store)@ == old(store)@
                },
            }
        }),
{
    let rec: Pledge = match store.get(pledge_id.as_str()) {
        None => {
            return Err(ContractError::PledgeNotFound);
        },
        Some(p) => p.clone(),
    };
    let owner = match nft_owner {
        Err(m) => {
            return Err(ContractError::Std(m.clone()));
        },
        Ok(owner) => owner,
    };
    if let Err(e) = gateway::check_nft_owner(owner, &ctx.sender) {
        return Err(e);
    }
    match rec.status {
        PledgeStatus::Approved => {},
        _ => {
            return Err(ContractError::InvalidPledgeStatus);
        },
    }
    let lender_nft_id = util::get_nft_id(
        ctx.contract_address.as_str(),
        rec.marker_address.as_str(),
        &NftType::LENDER,
    );
    let updated = Pledge {
        amount: rec.amount,
        marker_address: rec.marker_address,
        originator_nft_id: rec.originator_nft_id.clone(),
        lender_nft_id: rec.lender_nft_id,
        status: PledgeStatus::PaydownApproved,
    };
    proof {
        assert(updated@ =~= PledgeView {
            status: PledgeStatus::PaydownApproved,
            ..old(store)@[pledge_id@]
        });
    }
    store.save(pledge_id.clone(), updated);

    let mut messages: Vec<ProvMsg> = Vec::new();
    messages.push(
        ProvMsg::BurnNft {
            class_id: config.nft_class_id.clone(),
            token_id: rec.originator_nft_id,
            from_address: ctx.contract_address.clone(),
        },
    );
    messages.push(
        ProvMsg::BurnNft {
            class_id: config.nft_class_id.clone(),
            token_id: lender_nft_id,
            from_address: ctx.contract_address.clone(),
        },
    );
    let mut attributes: Vec<Attribute> = Vec::new();
    attributes.push(
        Attribute { key: String::from_str("method"), value: String::from_str("paydown") },
    );
    attributes.push(Attribute { key: String::from_str("id"), value: pledge_id });
    Ok(ContractResponse { messages, attributes })
}

} // verus!
