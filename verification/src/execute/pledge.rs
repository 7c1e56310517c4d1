use vstd::prelude::*;
use vstd::string::StringExecFns;
use crate::error::ContractError;
use crate::gateway;
use crate::msg::{AccessGrant, Attribute, ContractResponse, MessageContext, ProvMsg};
use crate::state::{Coin, CoinView, ContractConfiguration, Pledge, PledgeStatus, PledgeStore, PledgeView};
use crate::util;
use crate::util::NftType;

verus! {

/// The record the create transition writes: status `Pledged`, no lender
/// right-token yet, and the originator right-token identifier derived from
/// the contract identity, the marker account, and the originator role.
pub open spec fn new_pledge_view(ctx: MessageContext, amount: Coin, marker_addr: Seq<char>) -> PledgeView {
    PledgeView {
        amount: amount@,
        marker_address: marker_addr,
        originator_nft_id: util::nft_id(ctx.contract_address@, marker_addr, NftType::ORIGINATOR),
        lender_nft_id: None,
        status: PledgeStatus::Pledged,
    }
}

/// What the create transition decides: the first failing check aborts with its
/// error and no mutation; otherwise the new record enters the ledger.
pub open spec fn pledge_step(
    pledges: Map<Seq<char>, PledgeView>,
    config: ContractConfiguration,
    ctx: MessageContext,
    id: Seq<char>,
    amount: Coin,
    marker_addr: Seq<char>,
    grants: Seq<AccessGrant>,
    admin_access: i32,
    holders: Seq<String>,
) -> Result<Map<Seq<char>, PledgeView>, ContractError> {
    if !gateway::funds_ok(ctx.funds@, config.denom@, None) {
        Err(ContractError::InvalidFunds)
    } else if !gateway::marker_access_ok(grants, ctx.contract_address@, admin_access) {
        Err(ContractError::InvalidMarkerPermissions)
    } else if !gateway::marker_holding_ok(holders, marker_addr) {
        Err(ContractError::InvalidMarkerHolding)
    } else if pledges.contains_key(id) {
        Err(ContractError::PledgeAlreadyExists)
    } else {
        Ok(pledges.insert(id, new_pledge_view(ctx, amount, marker_addr)))
    }
}

/// The create transition emits exactly two instructions: mint the originator
/// right-token under the configured class, then transfer it from the issuing
/// identity to the caller.
pub open spec fn pledge_messages_ok(
    resp: ContractResponse,
    config: ContractConfiguration,
    ctx: MessageContext,
    marker_addr: Seq<char>,
) -> bool {
    let token = util::nft_id(ctx.contract_address@, marker_addr, NftType::ORIGINATOR);
    &&& resp.messages@.len() == 2
    &&& resp.messages@[0] matches ProvMsg::CreateAsset { class_id, token_id, from_address }
        && class_id@ == config.nft_class_id@ && token_id@ == token && from_address@
        == ctx.contract_address@
    &&& resp.messages@[1] matches ProvMsg::SendNft { class_id, token_id, sender, receiver }
        && class_id@ == config.nft_class_id@ && token_id@ == token && sender@
        == ctx.contract_address@ && receiver@ == ctx.sender@
}

/// The create transition's descriptive metadata: the method name, the pledge
/// identifier, and the committed amount.
pub open spec fn pledge_attributes_ok(resp: ContractResponse, id: Seq<char>, amount: CoinView) -> bool {
    &&& resp.attributes@.len() == 3
    &&& resp.attributes@[0].key@ == "method"@ && resp.attributes@[0].value@ == "pledge"@
    &&& resp.attributes@[1].key@ == "id"@ && resp.attributes@[1].value@ == id
    &&& resp.attributes@[2].key@ == "amount"@ && resp.attributes@[2].value@ == util::dec_seq(
        amount.amount as nat,
    ) + amount.denom
}

/// Create: commits a marker holding as collateral. Requires the attached
/// funds to match the configured denomination, a restricted (non-admin)
/// access grant for the contract identity over the marker account, a sole
/// undistributed holding, and a fresh identifier; then records the pledge and
/// authorizes mint and transfer of the originator right-token.
pub fn pledge(
    store: &mut PledgeStore,
    config: &ContractConfiguration,
    ctx: &MessageContext,
    id: String,
    amount: Coin,
    marker_addr: String,
    marker_grants: &Vec<AccessGrant>,
    admin_access: i32,
    marker_holders: &Vec<String>,
) -> (r: Result<ContractResponse, ContractError>)
    ensures
        ({
            let step = pledge_step(
                old(store)@,
                *config,
                *ctx,
                id@,
                amount,
                marker_addr@,
                marker_grants@,
                admin_access,
                marker_holders@,
            );
            match r {
                Ok(resp) => {
                    &&& step matches Ok(m) && final(store)@ == m
                    &&& pledge_messages_ok(resp, *config, *ctx, marker_addr@)
                    &&& pledge_attributes_ok(resp, id@, amount@)
                },
                Err(e) => {
                    &&& step matches Err(se) && e == se
                    &&& final(store)@ == old(store)@
                },
            }
        }),
{
    if let Err(e) = gateway::check_funds(&ctx.funds, &config.denom, None) {
        return Err(e);
    }
    if let Err(e) = gateway::check_marker_access(marker_grants, &ctx.contract_address, admin_access) {
        return Err(e);
    }
    if let Err(e) = gateway::check_marker_holding(marker_holders, &marker_addr) {
        return Err(e);
    }
    if store.contains(id.as_str()) {
        return Err(ContractError::PledgeAlreadyExists);
    }
    let originator_nft_id = util::get_nft_id(
        ctx.contract_address.as_str(),
        marker_addr.as_str(),
        &NftType::ORIGINATOR,
    );
    let record = Pledge {
        amount: amount.clone(),
        marker_address: marker_addr,
        originator_nft_id: originator_nft_id.clone(),
        lender_nft_id: None,
        status: PledgeStatus::Pledged,
    };
    proof {
        assert(record@ =~= new_pledge_view(*ctx, amount, record.marker_address@));
    }
    store.save(id.clone(), record);

    let mut messages: Vec<ProvMsg> = Vec::new();
    messages.push(
        ProvMsg::CreateAsset {
            class_id: config.nft_class_id.clone(),
            token_id: originator_nft_id.clone(),
            from_address: ctx.contract_address.clone(),
        },
    );
    messages.push(
        ProvMsg::SendNft {
            class_id: config.nft_class_id.clone(),
            token_id: originator_nft_id,
            sender: ctx.contract_address.clone(),
            receiver: ctx.sender.clone(),
        },
    );
    let mut attributes: Vec<Attribute> = Vec::new();
    attributes.push(
        Attribute { key: String::from_str("method"), value: String::from_str("pledge") },
    );
    attributes.push(Attribute { key: String::from_str("id"), value: id });
    attributes.push(
        Attribute { key: String::from_str("amount"), value: util::coin_string(&amount) },
    );
    Ok(ContractResponse { messages, attributes })
}

} // verus!
