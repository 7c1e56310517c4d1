use vstd::prelude::*;
use vstd::string::StringExecFns;
use crate::error::ContractError;
use crate::gateway;
use crate::msg::{Attribute, ContractResponse, MessageContext, ProvMsg};
use crate::state::{ContractConfiguration, Pledge, PledgeStatus, PledgeStore, PledgeView};
use crate::util;
use crate::util::NftType;

verus! {

/// What the approve transition decides: the pledge must exist and sit in
/// status `Pledged`, and the attached funds must match the pledge's recorded
/// amount exactly; then the record advances to `Approved` and learns its
/// lender right-token identifier.
pub open spec fn approve_step(
    pledges: Map<Seq<char>, PledgeView>,
    config: ContractConfiguration,
    ctx: MessageContext,
    pledge_id: Seq<char>,
) -> Result<Map<Seq<char>, PledgeView>, ContractError> {
    if !pledges.contains_key(pledge_id) {
        Err(ContractError::PledgeNotFound)
    } else {
        let p = pledges[pledge_id];
        if p.status != PledgeStatus::Pledged {
            Err(ContractError::InvalidPledgeStatus)
        } else if !gateway::funds_ok(ctx.funds@, p.amount.denom, Some(p.amount.amount)) {
            Err(ContractError::InvalidFunds)
        } else {
            Ok(
                pledges.insert(
                    pledge_id,
                    PledgeView {
                        amount: p.amount,
                        marker_address: p.marker_address,
                        originator_nft_id: p.originator_nft_id,
                        lender_nft_id: Some(
                            util::nft_id(ctx.contract_address@, p.marker_address, NftType::LENDER),
                        ),
                        status: PledgeStatus::Approved,
                    },
                ),
            )
        }
    }
}

/// The approve transition emits exactly two instructions: mint the lender
/// right-token under the configured class, then transfer it from the issuing
/// identity to the caller.
pub open spec fn approve_messages_ok(
    resp: ContractResponse,
    config: ContractConfiguration,
    ctx: MessageContext,
    marker_addr: Seq<char>,
) -> bool {
    let token = util::nft_id(ctx.contract_address@, marker_addr, NftType::LENDER);
    &&& resp.messages@.len() == 2
    &&& resp.messages@[0] matches ProvMsg::CreateAsset { class_id, token_id, from_address }
        && class_id@ == config.nft_class_id@ && token_id@ == token && from_address@
        == ctx.contract_address@
    &&& resp.messages@[1] matches ProvMsg::SendNft { class_id, token_id, sender, receiver }
        && class_id@ == config.nft_class_id@ && token_id@ == token && sender@
        == ctx.contract_address@ && receiver@ == ctx.sender@
}

/// The approve transition's descriptive metadata: the method name and the
/// pledge identifier.
pub open spec fn approve_attributes_ok(resp: ContractResponse, pledge_id: Seq<char>) -> bool {
    &&& resp.attributes@.len() == 2
    &&& resp.attributes@[0].key@ == "method"@ && resp.attributes@[0].value@ == "approve"@
    &&& resp.attributes@[1].key@ == "id"@ && resp.attributes@[1].value@ == pledge_id
}

/// Approve: the lender funds the pledge. Requires the pledge to exist in
/// status `Pledged` and the attached funds to equal the recorded amount;
/// then advances the record to `Approved` and authorizes mint and transfer of
/// the lender right-token to the caller.
pub fn approve(
    store: &mut PledgeStore,
    config: &ContractConfiguration,
    ctx: &MessageContext,
    pledge_id: String,
) -> (r: Result<ContractResponse, ContractError>)
    ensures
        ({
            let step = approve_step(old(store)@, *config, *ctx, pledge_id@);
            match r {
                Ok(resp) => {
                    &&& step matches Ok(m) && final(store)@ == m
                    &&& approve_messages_ok(
                        resp,
                        *config,
                        *ctx,
                        old(store)@[pledge_id@].marker_address,
                    )
                    &&& approve_attributes_ok(resp, pledge_id@)
                },
                Err(e) => {
                    &&& step matches Err(se) && e == se
                    &&& final(store)@ == old(store)@
                },
            }
        }),
{
    let rec: Pledge = match store.get(pledge_id.as_str()) {
        None => {
            return Err(ContractError::PledgeNotFound);
        },
        Some(p) => p.clone(),
    };
    match rec.status {
        PledgeStatus::Pledged => {},
        _ => {
            return Err(ContractError::InvalidPledgeStatus);
        },
    }
    if let Err(e) = gateway::check_funds(&ctx.funds, &rec.amount.denom, Some(rec.amount.amount)) {
        return Err(e);
    }
    let lender_nft_id = util::get_nft_id(
        ctx.contract_address.as_str(),
        rec.marker_address.as_str(),
        &NftType::LENDER,
    );
    let updated = Pledge {
        amount: rec.amount,
        marker_address: rec.marker_address,
        originator_nft_id: rec.originator_nft_id,
        lender_nft_id: Some(lender_nft_id.clone()),
        status: PledgeStatus::Approved,
    };
    proof {
        assert(approve_step(old(store)@, *config, *ctx, pledge_id@) matches Ok(m) && m
            == old(store)@.insert(pledge_id@, updated@)) by {
            assert(updated@ =~= PledgeView {
                lender_nft_id: Some(
                    util::nft_id(
                        ctx.contract_address@,
                        old(store)@[pledge_id@].marker_address,
                        NftType::LENDER,
                    ),
                ),
                status: PledgeStatus::Approved,
                ..old(store)@[pledge_id@]
            });
        }
    }
    store.save(pledge_id.clone(), updated);

    let mut messages: Vec<ProvMsg> = Vec::new();
    messages.push(
        ProvMsg::CreateAsset {
            class_id: config.nft_class_id.clone(),
            token_id: lender_nft_id.clone(),
            from_address: ctx.contract_address.clone(),
        },
    );
    messages.push(
        ProvMsg::SendNft {
            class_id: config.nft_class_id.clone(),
            token_id: lender_nft_id,
            sender: ctx.contract_address.clone(),
            receiver: ctx.sender.clone(),
        },
    );
    let mut attributes: Vec<Attribute> = Vec::new();
    attributes.push(
        Attribute { key: String::from_str("method"), value: String::from_str("approve") },
    );
    attributes.push(Attribute { key: String::from_str("id"), value: pledge_id });
    Ok(ContractResponse { messages, attributes })
}

} // verus!
