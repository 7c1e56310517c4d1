use vstd::prelude::*;
use crate::error::ContractError;
use crate::gateway;
use crate::msg::{ContractResponse, ExecuteMsg, MessageContext, QueryFacts};
use crate::state::{Coin, ContractConfiguration, PledgeStore, PledgeView};

pub mod approve;
pub mod approve_paydown;
pub mod paydown;
pub mod pledge;

pub use self::approve::approve;
pub use self::approve_paydown::approve_paydown;
pub use self::paydown::paydown;
pub use self::pledge::pledge;

verus! {

/// What one inbound operation decides, as a whole: the new ledger on success,
/// or the typed error of the first failing precondition, with no mutation.
pub open spec fn route_step(
    pledges: Map<Seq<char>, PledgeView>,
    config: ContractConfiguration,
    ctx: MessageContext,
    msg: ExecuteMsg,
    facts: QueryFacts,
) -> Result<Map<Seq<char>, PledgeView>, ContractError> {
    match msg {
        ExecuteMsg::Pledge { amount, id, marker_addr } => pledge::pledge_step(
            pledges,
            config,
            ctx,
            id@,
            amount,
            marker_addr@,
            facts.marker_grants@,
            facts.admin_access,
            facts.marker_holders@,
        ),
        ExecuteMsg::ApprovePledge { pledge_id } => approve::approve_step(
            pledges,
            config,
            ctx,
            pledge_id@,
        ),
        ExecuteMsg::Paydown { pledge_id } => paydown::paydown_step(
            pledges,
            ctx,
            pledge_id@,
            facts.nft_owner,
        ),
        ExecuteMsg::ApprovePaydown { pledge_id } => approve_paydown::approve_paydown_step(
            pledges,
            ctx,
            pledge_id@,
            facts.nft_owner,
        ),
    }
}

/// The instructions and metadata a successful operation hands back, per
/// operation kind.
pub open spec fn route_response_ok(
    resp: ContractResponse,
    pledges: Map<Seq<char>, PledgeView>,
    config: ContractConfiguration,
    ctx: MessageContext,
    msg: ExecuteMsg,
) -> bool {
    match msg {
        ExecuteMsg::Pledge { amount, id, marker_addr } => {
            &&& pledge::pledge_messages_ok(resp, config, ctx, marker_addr@)
            &&& pledge::pledge_attributes_ok(resp, id@, amount@)
        },
        ExecuteMsg::ApprovePledge { pledge_id } => {
            &&& pledges.contains_key(pledge_id@)
            &&& approve::approve_messages_ok(resp, config, ctx, pledges[pledge_id@].marker_address)
            &&& approve::approve_attributes_ok(resp, pledge_id@)
        },
        ExecuteMsg::Paydown { pledge_id } => paydown::paydown_response_ok(resp, pledge_id@),
        ExecuteMsg::ApprovePaydown { pledge_id } => {
            &&& pledges.contains_key(pledge_id@)
            &&& approve_paydown::approve_paydown_messages_ok(
                resp,
                config,
                ctx,
                pledges[pledge_id@],
            )
            &&& approve_paydown::approve_paydown_attributes_ok(resp, pledge_id@)
        },
    }
}

/// Dispatches one inbound operation to its lifecycle transition. Either the
/// transition fully applies its ledger mutation and returns its instructions,
/// or nothing changes and the first failing precondition's error comes back.
pub fn route(
    store: &mut PledgeStore,
    config: &ContractConfiguration,
    ctx: &MessageContext,
    msg: ExecuteMsg,
    facts: QueryFacts,
) -> (r: Result<ContractResponse, ContractError>)
    ensures
        ({
            let step = route_step(old(store)@, *config, *ctx, msg, facts);
            match r {
                Ok(resp) => {
                    &&& step matches Ok(m) && final(store)@ == m
                    &&& route_response_ok(resp, old(store)@, *config, *ctx, msg)
                },
                Err(e) => {
                    &&& step matches Err(se) && e == se
                    &&& final(store)@ == old(store)@
                },
            }
        }),
{
    match msg {
        ExecuteMsg::Pledge { amount, id, marker_addr } => pledge::pledge(
            store,
            config,
            ctx,
            id,
            amount,
            marker_addr,
            &facts.marker_grants,
            facts.admin_access,
            &facts.marker_holders,
        ),
        ExecuteMsg::ApprovePledge { pledge_id } => approve::approve(store, config, ctx, pledge_id),
        ExecuteMsg::Paydown { pledge_id } => paydown::paydown(
            store,
            ctx,
            pledge_id,
            &facts.nft_owner,
        ),
        ExecuteMsg::ApprovePaydown { pledge_id } => approve_paydown::approve_paydown(
            store,
            config,
            ctx,
            pledge_id,
            &facts.nft_owner,
        ),
    }
}

/// Forward-only status: whatever the operation and whatever the external
/// facts, a successful transition never deletes a pledge record, never moves
/// any existing pledge's status backward in the lifecycle order, and whenever
/// it changes one it moves it strictly forward.
pub proof fn lemma_forward_only(
    pledges: Map<Seq<char>, PledgeView>,
    config: ContractConfiguration,
    ctx: MessageContext,
    msg: ExecuteMsg,
    facts: QueryFacts,
)
    ensures
        route_step(pledges, config, ctx, msg, facts) matches Ok(after) ==> pledges.dom().subset_of(
            after.dom(),
        ),
        route_step(pledges, config, ctx, msg, facts) matches Ok(after) ==> forall|id: Seq<char>|
            pledges.contains_key(id) && #[trigger] after.contains_key(id) ==> {
                &&& after[id].status.ord() >= pledges[id].status.ord()
                &&& after[id].status != pledges[id].status ==> after[id].status.ord()
                    > pledges[id].status.ord()
            },
{
}

/// Funds exactness: the create transition succeeds only when exactly one coin
/// of the configured denomination is attached, and rejects anything else with
/// `InvalidFunds`; the approve transition succeeds only when exactly one coin
/// equal to the pledge's recorded amount is attached.
pub proof fn lemma_funds_exactness(
    pledges: Map<Seq<char>, PledgeView>,
    config: ContractConfiguration,
    ctx: MessageContext,
    id: Seq<char>,
    amount: Coin,
    marker_addr: Seq<char>,
    facts: QueryFacts,
    pledge_id: Seq<char>,
)
    ensures
        pledge::pledge_step(
            pledges,
            config,
            ctx,
            id,
            amount,
            marker_addr,
            facts.marker_grants@,
            facts.admin_access,
            facts.marker_holders@,
        ) is Ok ==> gateway::funds_ok(ctx.funds@, config.denom@, None),
        !gateway::funds_ok(ctx.funds@, config.denom@, None) ==> pledge::pledge_step(
            pledges,
            config,
            ctx,
            id,
            amount,
            marker_addr,
            facts.marker_grants@,
            facts.admin_access,
            facts.marker_holders@,
        ) == Err::<Map<Seq<char>, PledgeView>, ContractError>(ContractError::InvalidFunds),
        approve::approve_step(pledges, config, ctx, pledge_id) is Ok ==> gateway::funds_ok(
            ctx.funds@,
            pledges[pledge_id].amount.denom,
            Some(pledges[pledge_id].amount.amount),
        ),
{
}

/// Idempotent rejection: approving the same pledge twice succeeds at most
/// once; after a successful approval, a second approval — under any
/// configuration and any caller — fails with `InvalidPledgeStatus`.
pub proof fn lemma_approve_once(
    pledges: Map<Seq<char>, PledgeView>,
    config: ContractConfiguration,
    ctx: MessageContext,
    config2: ContractConfiguration,
    ctx2: MessageContext,
    pledge_id: Seq<char>,
)
    ensures
        approve::approve_step(pledges, config, ctx, pledge_id) matches Ok(after)
            ==> approve::approve_step(after, config2, ctx2, pledge_id) == Err::<
            Map<Seq<char>, PledgeView>,
            ContractError,
        >(ContractError::InvalidPledgeStatus),
{
}

/// Ownership gating: when the pledge exists and the registry answers, paydown
/// and approve-paydown fail with `Unauthorized` for every caller other than
/// the current holder of, respectively, the originator and lender
/// right-token.
pub proof fn lemma_ownership_gating(
    pledges: Map<Seq<char>, PledgeView>,
    ctx: MessageContext,
    pledge_id: Seq<char>,
    owner: String,
)
    ensures
        pledges.contains_key(pledge_id) && owner@ != ctx.sender@ ==> {
            &&& paydown::paydown_step(pledges, ctx, pledge_id, Ok(owner)) == Err::<
                Map<Seq<char>, PledgeView>,
                ContractError,
            >(ContractError::Unauthorized)
            &&& approve_paydown::approve_paydown_step(pledges, ctx, pledge_id, Ok(owner)) == Err::<
                Map<Seq<char>, PledgeView>,
                ContractError,
            >(ContractError::Unauthorized)
        },
{
}

} // verus!
