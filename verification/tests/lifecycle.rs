use warehousing_smart_contract::error::ContractError;
use warehousing_smart_contract::execute::approve::approve;
use warehousing_smart_contract::execute::approve_paydown::approve_paydown;
use warehousing_smart_contract::execute::paydown::paydown;
use warehousing_smart_contract::execute::pledge::pledge;
use warehousing_smart_contract::execute::route;
use warehousing_smart_contract::msg::{AccessGrant, Attribute, ExecuteMsg, MessageContext, ProvMsg, QueryFacts, QueryMsg};
use warehousing_smart_contract::query;
use warehousing_smart_contract::state::{Coin, ContractConfiguration, PledgeStatus, PledgeStore};

const ADMIN: i32 = 6;

fn config() -> ContractConfiguration {
    ContractConfiguration { denom: "usettle".to_string(), nft_class_id: "wsc-class".to_string() }
}

fn ctx(sender: &str, funds: Vec<Coin>) -> MessageContext {
    MessageContext {
        contract_address: "contract-addr".to_string(),
        sender: sender.to_string(),
        funds,
    }
}

fn usettle(amount: u128) -> Coin {
    Coin { denom: "usettle".to_string(), amount }
}

fn restricted_grants() -> Vec<AccessGrant> {
    vec![AccessGrant { address: "contract-addr".to_string(), permissions: vec![3, 4] }]
}

fn sole_holder() -> Vec<String> {
    vec!["marker-a".to_string()]
}

fn pledged_store() -> PledgeStore {
    let mut store = PledgeStore::new();
    let r = pledge(
        &mut store,
        &config(),
        &ctx("originator", vec![usettle(100)]),
        "pledge-1".to_string(),
        usettle(100),
        "marker-a".to_string(),
        &restricted_grants(),
        ADMIN,
        &sole_holder(),
    );
    assert!(r.is_ok());
    store
}

fn approved_store() -> PledgeStore {
    let mut store = pledged_store();
    let r = approve(
        &mut store,
        &config(),
        &ctx("lender", vec![usettle(100)]),
        "pledge-1".to_string(),
    );
    assert!(r.is_ok());
    store
}

#[test]
fn round_trip() {
    let mut store = PledgeStore::new();
    let resp = pledge(
        &mut store,
        &config(),
        &ctx("originator", vec![usettle(100)]),
        "pledge-1".to_string(),
        usettle(100),
        "marker-a".to_string(),
        &restricted_grants(),
        ADMIN,
        &sole_holder(),
    )
    .unwrap();
    assert_eq!(
        resp.messages,
        vec![
            ProvMsg::CreateAsset {
                class_id: "wsc-class".to_string(),
                token_id: "contract-addr.marker-a.ORIGINATOR".to_string(),
                from_address: "contract-addr".to_string(),
            },
            ProvMsg::SendNft {
                class_id: "wsc-class".to_string(),
                token_id: "contract-addr.marker-a.ORIGINATOR".to_string(),
                sender: "contract-addr".to_string(),
                receiver: "originator".to_string(),
            },
        ]
    );
    let rec = query::pledge::pledge(&store, "pledge-1").unwrap();
    assert_eq!(rec.status, PledgeStatus::Pledged);
    assert_eq!(rec.amount, usettle(100));
    assert_eq!(rec.marker_address, "marker-a");
    assert_eq!(rec.originator_nft_id, "contract-addr.marker-a.ORIGINATOR");
    assert_eq!(rec.lender_nft_id, None);

    let resp = approve(
        &mut store,
        &config(),
        &ctx("lender", vec![usettle(100)]),
        "pledge-1".to_string(),
    )
    .unwrap();
    assert_eq!(
        resp.messages,
        vec![
            ProvMsg::CreateAsset {
                class_id: "wsc-class".to_string(),
                token_id: "contract-addr.marker-a.LENDER".to_string(),
                from_address: "contract-addr".to_string(),
            },
            ProvMsg::SendNft {
                class_id: "wsc-class".to_string(),
                token_id: "contract-addr.marker-a.LENDER".to_string(),
                sender: "contract-addr".to_string(),
                receiver: "lender".to_string(),
            },
        ]
    );
    let rec = query::pledge::pledge(&store, "pledge-1").unwrap();
    assert_eq!(rec.status, PledgeStatus::Approved);
    assert_eq!(rec.lender_nft_id, Some("contract-addr.marker-a.LENDER".to_string()));

    let resp = approve_paydown(
        &mut store,
        &config(),
        &ctx("lender", vec![]),
        "pledge-1".to_string(),
        &Ok("lender".to_string()),
    )
    .unwrap();
    assert_eq!(
        resp.messages,
        vec![
            ProvMsg::BurnNft {
                class_id: "wsc-class".to_string(),
                token_id: "contract-addr.marker-a.ORIGINATOR".to_string(),
                from_address: "contract-addr".to_string(),
            },
            ProvMsg::BurnNft {
                class_id: "wsc-class".to_string(),
                token_id: "contract-addr.marker-a.LENDER".to_string(),
                from_address: "contract-addr".to_string(),
            },
        ]
    );
    let rec = query::pledge::pledge(&store, "pledge-1").unwrap();
    assert_eq!(rec.status, PledgeStatus::PaydownApproved);
}

#[test]
fn pledge_attributes_describe_the_commitment() {
    let mut store = PledgeStore::new();
    let resp = pledge(
        &mut store,
        &config(),
        &ctx("originator", vec![usettle(100)]),
        "pledge-1".to_string(),
        usettle(100),
        "marker-a".to_string(),
        &restricted_grants(),
        ADMIN,
        &sole_holder(),
    )
    .unwrap();
    assert_eq!(
        resp.attributes,
        vec![
            Attribute { key: "method".to_string(), value: "pledge".to_string() },
            Attribute { key: "id".to_string(), value: "pledge-1".to_string() },
            Attribute { key: "amount".to_string(), value: "100usettle".to_string() },
        ]
    );
}

#[test]
fn pledge_rejects_wrong_denom() {
    let mut store = PledgeStore::new();
    let wrong = Coin { denom: "uother".to_string(), amount: 100 };
    let r = pledge(
        &mut store,
        &config(),
        &ctx("originator", vec![wrong]),
        "pledge-1".to_string(),
        usettle(100),
        "marker-a".to_string(),
        &restricted_grants(),
        ADMIN,
        &sole_holder(),
    );
    assert_eq!(r.unwrap_err(), ContractError::InvalidFunds);
    assert_eq!(store.len(), 0);
}

#[test]
fn pledge_rejects_no_funds() {
    let mut store = PledgeStore::new();
    let r = pledge(
        &mut store,
        &config(),
        &ctx("originator", vec![]),
        "pledge-1".to_string(),
        usettle(100),
        "marker-a".to_string(),
        &restricted_grants(),
        ADMIN,
        &sole_holder(),
    );
    assert_eq!(r.unwrap_err(), ContractError::InvalidFunds);
}

#[test]
fn pledge_rejects_multiple_funds() {
    let mut store = PledgeStore::new();
    let r = pledge(
        &mut store,
        &config(),
        &ctx("originator", vec![usettle(50), usettle(50)]),
        "pledge-1".to_string(),
        usettle(100),
        "marker-a".to_string(),
        &restricted_grants(),
        ADMIN,
        &sole_holder(),
    );
    assert_eq!(r.unwrap_err(), ContractError::InvalidFunds);
}

#[test]
fn pledge_rejects_admin_grant() {
    let mut store = PledgeStore::new();
    let grants =
        vec![AccessGrant { address: "contract-addr".to_string(), permissions: vec![3, ADMIN] }];
    let r = pledge(
        &mut store,
        &config(),
        &ctx("originator", vec![usettle(100)]),
        "pledge-1".to_string(),
        usettle(100),
        "marker-a".to_string(),
        &grants,
        ADMIN,
        &sole_holder(),
    );
    assert_eq!(r.unwrap_err(), ContractError::InvalidMarkerPermissions);
}

#[test]
fn pledge_rejects_missing_grant() {
    let mut store = PledgeStore::new();
    let grants = vec![AccessGrant { address: "someone-else".to_string(), permissions: vec![3] }];
    let r = pledge(
        &mut store,
        &config(),
        &ctx("originator", vec![usettle(100)]),
        "pledge-1".to_string(),
        usettle(100),
        "marker-a".to_string(),
        &grants,
        ADMIN,
        &sole_holder(),
    );
    assert_eq!(r.unwrap_err(), ContractError::InvalidMarkerPermissions);
}

#[test]
fn pledge_rejects_fragmented_holding() {
    let mut store = PledgeStore::new();
    let holders = vec!["marker-a".to_string(), "somebody".to_string()];
    let r = pledge(
        &mut store,
        &config(),
        &ctx("originator", vec![usettle(100)]),
        "pledge-1".to_string(),
        usettle(100),
        "marker-a".to_string(),
        &restricted_grants(),
        ADMIN,
        &holders,
    );
    assert_eq!(r.unwrap_err(), ContractError::InvalidMarkerHolding);
    assert_eq!(store.len(), 0);
}

#[test]
fn pledge_rejects_foreign_holder() {
    let mut store = PledgeStore::new();
    let holders = vec!["somebody".to_string()];
    let r = pledge(
        &mut store,
        &config(),
        &ctx("originator", vec![usettle(100)]),
        "pledge-1".to_string(),
        usettle(100),
        "marker-a".to_string(),
        &restricted_grants(),
        ADMIN,
        &holders,
    );
    assert_eq!(r.unwrap_err(), ContractError::InvalidMarkerHolding);
    assert_eq!(store.len(), 0);
}

#[test]
fn pledge_rejects_duplicate_identifier() {
    let mut store = pledged_store();
    let r = pledge(
        &mut store,
        &config(),
        &ctx("originator", vec![usettle(100)]),
        "pledge-1".to_string(),
        usettle(200),
        "marker-b".to_string(),
        &restricted_grants(),
        ADMIN,
        &vec!["marker-b".to_string()],
    );
    assert_eq!(r.unwrap_err(), ContractError::PledgeAlreadyExists);
    assert_eq!(store.len(), 1);
    let rec = query::pledge::pledge(&store, "pledge-1").unwrap();
    assert_eq!(rec.amount, usettle(100));
}

#[test]
fn approve_rejects_wrong_amount() {
    let mut store = pledged_store();
    let r = approve(
        &mut store,
        &config(),
        &ctx("lender", vec![usettle(99)]),
        "pledge-1".to_string(),
    );
    assert_eq!(r.unwrap_err(), ContractError::InvalidFunds);
    let rec = query::pledge::pledge(&store, "pledge-1").unwrap();
    assert_eq!(rec.status, PledgeStatus::Pledged);
}

#[test]
fn approve_rejects_missing_pledge() {
    let mut store = PledgeStore::new();
    let r = approve(
        &mut store,
        &config(),
        &ctx("lender", vec![usettle(100)]),
        "pledge-9".to_string(),
    );
    assert_eq!(r.unwrap_err(), ContractError::PledgeNotFound);
}

#[test]
fn approve_twice_fails_the_second_time() {
    let mut store = pledged_store();
    let first = approve(
        &mut store,
        &config(),
        &ctx("lender", vec![usettle(100)]),
        "pledge-1".to_string(),
    );
    assert!(first.is_ok());
    let second = approve(
        &mut store,
        &config(),
        &ctx("lender", vec![usettle(100)]),
        "pledge-1".to_string(),
    );
    assert_eq!(second.unwrap_err(), ContractError::InvalidPledgeStatus);
    let rec = query::pledge::pledge(&store, "pledge-1").unwrap();
    assert_eq!(rec.status, PledgeStatus::Approved);
}

#[test]
fn paydown_rejects_non_owner() {
    let mut store = approved_store();
    let r = paydown(
        &mut store,
        &ctx("intruder", vec![]),
        "pledge-1".to_string(),
        &Ok("originator".to_string()),
    );
    assert_eq!(r.unwrap_err(), ContractError::Unauthorized);
    let rec = query::pledge::pledge(&store, "pledge-1").unwrap();
    assert_eq!(rec.status, PledgeStatus::Approved);
}

#[test]
fn paydown_advances_to_requested() {
    let mut store = approved_store();
    let resp = paydown(
        &mut store,
        &ctx("originator", vec![]),
        "pledge-1".to_string(),
        &Ok("originator".to_string()),
    )
    .unwrap();
    assert!(resp.messages.is_empty());
    let rec = query::pledge::pledge(&store, "pledge-1").unwrap();
    assert_eq!(rec.status, PledgeStatus::PaydownRequested);
}

#[test]
fn paydown_rejects_wrong_status() {
    let mut store = pledged_store();
    let r = paydown(
        &mut store,
        &ctx("originator", vec![]),
        "pledge-1".to_string(),
        &Ok("originator".to_string()),
    );
    assert_eq!(r.unwrap_err(), ContractError::InvalidPledgeStatus);
}

#[test]
fn paydown_propagates_owner_query_failure() {
    let mut store = approved_store();
    let r = paydown(
        &mut store,
        &ctx("originator", vec![]),
        "pledge-1".to_string(),
        &Err("registry unreachable".to_string()),
    );
    assert_eq!(r.unwrap_err(), ContractError::Std("registry unreachable".to_string()));
    let rec = query::pledge::pledge(&store, "pledge-1").unwrap();
    assert_eq!(rec.status, PledgeStatus::Approved);
}

#[test]
fn approve_paydown_rejects_non_owner() {
    let mut store = approved_store();
    let r = approve_paydown(
        &mut store,
        &config(),
        &ctx("intruder", vec![]),
        "pledge-1".to_string(),
        &Ok("lender".to_string()),
    );
    assert_eq!(r.unwrap_err(), ContractError::Unauthorized);
    let rec = query::pledge::pledge(&store, "pledge-1").unwrap();
    assert_eq!(rec.status, PledgeStatus::Approved);
}

#[test]
fn approve_paydown_rejects_wrong_status() {
    let mut store = pledged_store();
    let r = approve_paydown(
        &mut store,
        &config(),
        &ctx("lender", vec![]),
        "pledge-1".to_string(),
        &Ok("lender".to_string()),
    );
    assert_eq!(r.unwrap_err(), ContractError::InvalidPledgeStatus);
}

#[test]
fn route_dispatches_all_operations() {
    let mut store = PledgeStore::new();
    let facts = QueryFacts {
        marker_grants: restricted_grants(),
        admin_access: ADMIN,
        marker_holders: sole_holder(),
        nft_owner: Ok(String::new()),
    };
    let r = route(
        &mut store,
        &config(),
        &ctx("originator", vec![usettle(100)]),
        ExecuteMsg::Pledge {
            amount: usettle(100),
            id: "pledge-1".to_string(),
            marker_addr: "marker-a".to_string(),
        },
        facts,
    );
    assert!(r.is_ok());

    let facts = QueryFacts {
        marker_grants: vec![],
        admin_access: ADMIN,
        marker_holders: vec![],
        nft_owner: Ok(String::new()),
    };
    let r = route(
        &mut store,
        &config(),
        &ctx("lender", vec![usettle(100)]),
        ExecuteMsg::ApprovePledge { pledge_id: "pledge-1".to_string() },
        facts,
    );
    assert!(r.is_ok());

    let facts = QueryFacts {
        marker_grants: vec![],
        admin_access: ADMIN,
        marker_holders: vec![],
        nft_owner: Ok("lender".to_string()),
    };
    let r = route(
        &mut store,
        &config(),
        &ctx("lender", vec![]),
        ExecuteMsg::ApprovePaydown { pledge_id: "pledge-1".to_string() },
        facts,
    );
    assert!(r.is_ok());
    let rec = query::route(&store, QueryMsg::Pledge { id: "pledge-1".to_string() }).unwrap();
    assert_eq!(rec.status, PledgeStatus::PaydownApproved);
}

#[test]
fn route_paydown_checks_owner() {
    let mut store = approved_store();
    let facts = QueryFacts {
        marker_grants: vec![],
        admin_access: ADMIN,
        marker_holders: vec![],
        nft_owner: Ok("originator".to_string()),
    };
    let r = route(
        &mut store,
        &config(),
        &ctx("originator", vec![]),
        ExecuteMsg::Paydown { pledge_id: "pledge-1".to_string() },
        facts,
    );
    assert!(r.is_ok());
    let rec = query::route(&store, QueryMsg::Pledge { id: "pledge-1".to_string() }).unwrap();
    assert_eq!(rec.status, PledgeStatus::PaydownRequested);
}

#[test]
fn query_missing_pledge_fails() {
    let store = PledgeStore::new();
    let r = query::route(&store, QueryMsg::Pledge { id: "absent".to_string() });
    assert_eq!(r.unwrap_err(), ContractError::PledgeNotFound);
}

#[test]
fn approve_checks_funds_against_recorded_amount() {
    // The pledge's own amount may carry a different denom than the funding
    // denom; approval must match the recorded amount exactly.
    let mut store = PledgeStore::new();
    let recorded = Coin { denom: "uother".to_string(), amount: 42 };
    let r = pledge(
        &mut store,
        &config(),
        &ctx("originator", vec![usettle(100)]),
        "pledge-1".to_string(),
        recorded.clone(),
        "marker-a".to_string(),
        &restricted_grants(),
        ADMIN,
        &sole_holder(),
    );
    assert!(r.is_ok());
    let wrong = approve(
        &mut store,
        &config(),
        &ctx("lender", vec![usettle(42)]),
        "pledge-1".to_string(),
    );
    assert_eq!(wrong.unwrap_err(), ContractError::InvalidFunds);
    let right = approve(
        &mut store,
        &config(),
        &ctx("lender", vec![recorded]),
        "pledge-1".to_string(),
    );
    assert!(right.is_ok());
}

#[test]
fn approve_and_paydown_attributes_name_the_operation() {
    let mut store = pledged_store();
    let resp = approve(
        &mut store,
        &config(),
        &ctx("lender", vec![usettle(100)]),
        "pledge-1".to_string(),
    )
    .unwrap();
    assert_eq!(
        resp.attributes,
        vec![
            Attribute { key: "method".to_string(), value: "approve".to_string() },
            Attribute { key: "id".to_string(), value: "pledge-1".to_string() },
        ]
    );
    let resp = paydown(
        &mut store,
        &ctx("originator", vec![]),
        "pledge-1".to_string(),
        &Ok("originator".to_string()),
    )
    .unwrap();
    assert_eq!(
        resp.attributes,
        vec![
            Attribute { key: "method".to_string(), value: "paydown".to_string() },
            Attribute { key: "id".to_string(), value: "pledge-1".to_string() },
        ]
    );
}

#[test]
fn route_reports_first_failing_check() {
    let mut store = pledged_store();
    let facts = QueryFacts {
        marker_grants: vec![],
        admin_access: ADMIN,
        marker_holders: vec![],
        nft_owner: Ok(String::new()),
    };
    let r = route(
        &mut store,
        &config(),
        &ctx("lender", vec![usettle(1)]),
        ExecuteMsg::ApprovePledge { pledge_id: "pledge-1".to_string() },
        facts,
    );
    assert_eq!(r.unwrap_err(), ContractError::InvalidFunds);
    let rec = query::pledge::pledge(&store, "pledge-1").unwrap();
    assert_eq!(rec.status, PledgeStatus::Pledged);
}
