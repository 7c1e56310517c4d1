use warehousing_smart_contract::error::ContractError;
use warehousing_smart_contract::instantiate::instantiate;
use warehousing_smart_contract::msg::{Attribute, InstantiateMsg, ProvMsg};
use warehousing_smart_contract::state::{Coin, CONTRACT_NAME, CONTRACT_VERSION};
use warehousing_smart_contract::util::{coin_string, contains_substring, get_nft_id, u128_to_decimal, NftType};

fn init_msg() -> InstantiateMsg {
    InstantiateMsg { denom: "usettle".to_string(), nft_class_id: "wsc-class".to_string() }
}

#[test]
fn instantiate_registers_class_and_config() {
    let (version, config, resp) = instantiate(
        init_msg(),
        &"contract-addr".to_string(),
        &Ok(false),
    )
    .unwrap();
    assert_eq!(version.contract, CONTRACT_NAME);
    assert_eq!(version.version, CONTRACT_VERSION);
    assert_eq!(config.denom, "usettle");
    assert_eq!(config.nft_class_id, "wsc-class");
    assert_eq!(
        resp.messages,
        vec![ProvMsg::CreateAssetClass {
            class_id: "wsc-class".to_string(),
            name: "WSC".to_string(),
            symbol: "WSC".to_string(),
            description: "WSC".to_string(),
            from_address: "contract-addr".to_string(),
        }]
    );
    assert_eq!(
        resp.attributes,
        vec![
            Attribute { key: "method".to_string(), value: "instantiate".to_string() },
            Attribute { key: "denom".to_string(), value: "usettle".to_string() },
            Attribute { key: "nft_class_id".to_string(), value: "wsc-class".to_string() },
        ]
    );
}

#[test]
fn instantiate_twice_fails_on_existing_class() {
    let first = instantiate(init_msg(), &"contract-addr".to_string(), &Ok(false));
    assert!(first.is_ok());
    // After the first initialization the registry holds the class, so its
    // lookup now answers that the class exists.
    let second = instantiate(init_msg(), &"contract-addr".to_string(), &Ok(true));
    assert_eq!(second.unwrap_err(), ContractError::NftClassInUse);
}

#[test]
fn instantiate_proceeds_on_class_not_found_error() {
    let lookup = Err("query failed: codespace: nft, code: 4, not found".to_string());
    let r = instantiate(init_msg(), &"contract-addr".to_string(), &lookup);
    assert!(r.is_ok());
}

#[test]
fn instantiate_propagates_other_query_errors() {
    let lookup = Err("node unreachable".to_string());
    let r = instantiate(init_msg(), &"contract-addr".to_string(), &lookup);
    assert_eq!(
        r.unwrap_err(),
        ContractError::Std("NFT querier error: node unreachable".to_string())
    );
}

#[test]
fn nft_id_joins_issuer_marker_and_role() {
    assert_eq!(
        get_nft_id("contract-addr", "marker-a", &NftType::ORIGINATOR),
        "contract-addr.marker-a.ORIGINATOR"
    );
    assert_eq!(
        get_nft_id("contract-addr", "marker-a", &NftType::LENDER),
        "contract-addr.marker-a.LENDER"
    );
}

#[test]
fn decimal_writing_is_exact() {
    assert_eq!(u128_to_decimal(0), "0");
    assert_eq!(u128_to_decimal(7), "7");
    assert_eq!(u128_to_decimal(100), "100");
    assert_eq!(u128_to_decimal(1234567890), "1234567890");
    assert_eq!(
        u128_to_decimal(u128::MAX),
        "340282366920938463463374607431768211455"
    );
}

#[test]
fn coin_writing_matches_ledger_display() {
    let c = Coin { denom: "usettle".to_string(), amount: 100 };
    assert_eq!(coin_string(&c), "100usettle");
}

#[test]
fn substring_search_agrees_with_str_contains() {
    assert!(contains_substring("codespace: nft, code: 4", "nft, code: 4"));
    assert!(contains_substring("abc", ""));
    assert!(contains_substring("abc", "abc"));
    assert!(!contains_substring("abc", "abcd"));
    assert!(!contains_substring("codespace: nft, code: 5", "code: 4"));
    assert!(contains_substring("aaab", "aab"));
}
