use vstd::prelude::*;
use crate::state::Coin;

verus! {

/// Identifies a right-token inside its issuance class.
#[derive(Debug)]
pub struct NftInfo {
    pub token_id: String,
    pub class_id: String,
}

/// Initialization request: the settlement denomination accepted as pledge
/// funding, and the issuance class under which right-tokens are minted.
#[derive(Debug)]
pub struct InstantiateMsg {
    pub denom: String,
    pub nft_class_id: String,
}

/// One of the four lifecycle operations.
#[derive(Debug)]
pub enum ExecuteMsg {
    Pledge { amount: Coin, id: String, marker_addr: String },
    ApprovePledge { pledge_id: String },
    Paydown { pledge_id: String },
    ApprovePaydown { pledge_id: String },
}

/// A read-only request against the pledge ledger.
#[derive(Debug)]
pub enum QueryMsg {
    Pledge { id: String },
}

/// What arrives with an inbound operation besides the operation itself: the
/// orchestrating contract's own identity, the caller, and the attached funds.
#[derive(Debug)]
pub struct MessageContext {
    pub contract_address: String,
    pub sender: String,
    pub funds: Vec<Coin>,
}

/// One access grant over a marker account, as the external holding oracle
/// reports it: the granted account and its permission tiers.
#[derive(Debug)]
pub struct AccessGrant {
    pub address: String,
    pub permissions: Vec<i32>,
}

/// Results of the external queries a transition consults, fetched fresh for
/// each operation — never cached, since other parties can change ownership or
/// holdings between operations.
#[derive(Debug)]
pub struct QueryFacts {
    /// Access grants over the marker account named by the operation.
    pub marker_grants: Vec<AccessGrant>,
    /// The permission tier the oracle uses for full administrative access.
    pub admin_access: i32,
    /// The accounts among which the marker account's balance is held.
    pub marker_holders: Vec<String>,
    /// Current owner of the right-token the operation turns on, or the words
    /// of the registry's failure.
    pub nft_owner: Result<String, String>,
}

/// One asset-issuance instruction emitted by a successful operation, to be
/// carried out by the external token registry.
#[derive(Debug, PartialEq, Eq)]
pub enum ProvMsg {
    /// Register the issuance class under which right-tokens are minted.
    CreateAssetClass {
        class_id: String,
        name: String,
        symbol: String,
        description: String,
        from_address: String,
    },
    /// Mint a right-token under the issuance class.
    CreateAsset { class_id: String, token_id: String, from_address: String },
    /// Transfer a right-token between accounts.
    SendNft { class_id: String, token_id: String, sender: String, receiver: String },
    /// Retire a right-token.
    BurnNft { class_id: String, token_id: String, from_address: String },
}

/// One key/value pair of descriptive metadata on an operation's result.
#[derive(Debug, PartialEq, Eq)]
pub struct Attribute {
    pub key: String,
    pub value: String,
}

/// What a successful operation hands back: the issuance instructions it
/// authorizes, and descriptive metadata.
#[derive(Debug, PartialEq, Eq)]
pub struct ContractResponse {
    pub messages: Vec<ProvMsg>,
    pub attributes: Vec<Attribute>,
}

} // verus!
