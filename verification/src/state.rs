use vstd::prelude::*;
use vstd::hash_map::StringHashMap;

verus! {

/// Name recorded in the versioned contract metadata.
pub const CONTRACT_NAME: &'static str = "crates.io:warehousing-smart-contract";

/// Semantic version recorded in the versioned contract metadata.
pub const CONTRACT_VERSION: &'static str = "0.1.0";

/// Lifecycle position of a pledge. A successful transition only ever moves a
/// record forward in the order `Pledged`, `Approved`, `PaydownRequested`,
/// `PaydownApproved`; see `crate::execute::lemma_forward_only`.
#[derive(Debug, Clone, Copy, PartialEq, Eq, Structural)]
pub enum PledgeStatus {
    Pledged,
    Approved,
    PaydownRequested,
    PaydownApproved,
}

impl PledgeStatus {
    /// Position of this status in the forward lifecycle order.
    pub open spec fn ord(self) -> int {
        match self {
            PledgeStatus::Pledged => 0,
            PledgeStatus::Approved => 1,
            PledgeStatus::PaydownRequested => 2,
            PledgeStatus::PaydownApproved => 3,
        }
    }
}

/// Mathematical value of a `Coin`: a denomination and a quantity.
#[verifier::ext_equal]
pub ghost struct CoinView {
    pub denom: Seq<char>,
    pub amount: u128,
}

/// A (denomination, quantity) pair: an attached fund entry, or the committed
/// collateral value of a pledge.
#[derive(Debug, PartialEq, Eq)]
#[verifier::ext_equal]
pub struct Coin {
    pub denom: String,
    pub amount: u128,
}

impl View for Coin {
    type V = CoinView;

    open spec fn view(&self) -> CoinView {
        CoinView { denom: self.denom@, amount: self.amount }
    }
}

impl Clone for Coin {
    fn clone(&self) -> (c: Self)
        ensures
            c == *self,
    {
        let c = Coin { denom: self.denom.clone(), amount: self.amount };
        proof {
            assert(c =~= *self);
        }
        c
    }
}

/// Singleton configuration, set once at initialization and read-only
/// thereafter: the single denomination accepted as pledge funding, and the
/// issuance class under which right-tokens are minted.
#[derive(Debug, PartialEq, Eq)]
#[verifier::ext_equal]
pub struct ContractConfiguration {
    pub denom: String,
    pub nft_class_id: String,
}

impl Clone for ContractConfiguration {
    fn clone(&self) -> (c: Self)
        ensures
            c == *self,
    {
        let c = ContractConfiguration {
            denom: self.denom.clone(),
            nft_class_id: self.nft_class_id.clone(),
        };
        proof {
            assert(c =~= *self);
        }
        c
    }
}

/// Versioned contract metadata persisted at initialization.
#[derive(Debug, PartialEq, Eq)]
pub struct ContractVersion {
    pub contract: String,
    pub version: String,
}

/// Mathematical value of a `Pledge` record.
#[verifier::ext_equal]
pub ghost struct PledgeView {
    pub amount: CoinView,
    pub marker_address: Seq<char>,
    pub originator_nft_id: Seq<char>,
    pub lender_nft_id: Option<Seq<char>>,
    pub status: PledgeStatus,
}

/// One collateral commitment record, created by the `pledge` transition and
/// mutated only by the lifecycle transitions.
#[derive(Debug, PartialEq, Eq)]
#[verifier::ext_equal]
pub struct Pledge {
    /// The committed collateral value.
    pub amount: Coin,
    /// Identifier of the external marker account backing the pledge.
    pub marker_address: String,
    /// Identifier of the originator right-token, derived at creation.
    pub originator_nft_id: String,
    /// Identifier of the lender right-token, set when the pledge is approved.
    pub lender_nft_id: Option<String>,
    /// Lifecycle position of this record.
    pub status: PledgeStatus,
}

impl View for Pledge {
    type V = PledgeView;

    open spec fn view(&self) -> PledgeView {
        PledgeView {
            amount: self.amount@,
            marker_address: self.marker_address@,
            originator_nft_id: self.originator_nft_id@,
            lender_nft_id: match self.lender_nft_id {
                Some(id) => Some(id@),
                None => None,
            },
            status: self.status,
        }
    }
}

impl Clone for Pledge {
    fn clone(&self) -> (p: Self)
        ensures
            p == *self,
    {
        let p = Pledge {
            amount: self.amount.clone(),
            marker_address: self.marker_address.clone(),
            originator_nft_id: self.originator_nft_id.clone(),
            lender_nft_id: match &self.lender_nft_id {
                Some(id) => Some(id.clone()),
                None => None,
            },
            status: self.status,
        };
        proof {
            assert(p =~= *self);
        }
        p
    }
}

/// The pledge ledger: the authoritative mapping from pledge identifier to
/// pledge record. Viewed as a `Map` from the identifier's characters to the
/// record's mathematical value.
pub struct PledgeStore {
    pledges: StringHashMap<Pledge>,
}

impl View for PledgeStore {
    type V = Map<Seq<char>, PledgeView>;

    closed spec fn view(&self) -> Map<Seq<char>, PledgeView> {
        self.pledges@.map_values(|p: Pledge| p@)
    }
}

impl PledgeStore {
    /// An empty ledger, holding no pledge records.
    pub fn new() -> (s: Self)
        ensures
            s@ == Map::<Seq<char>, PledgeView>::empty(),
    {
        let s = PledgeStore { pledges: StringHashMap::new() };
        proof {
            assert(s@ =~= Map::<Seq<char>, PledgeView>::empty());
        }
        s
    }

    /// Whether a record exists under the given identifier.
    pub fn contains(&self, id: &str) -> (r: bool)
        ensures
            r == self@.contains_key(id@),
    {
        self.pledges.contains_key(id)
    }

    /// The record under the given identifier, if any.
    pub fn get(&self, id: &str) -> (r: Option<&Pledge>)
        ensures
            match r {
                Some(p) => self@.contains_key(id@) && p@ == self@[id@],
                None => !self@.contains_key(id@),
            },
    {
        self.pledges.get(id)
    }

    /// Writes the record under the given identifier, replacing any record
    /// already there.
    pub fn save(&mut self, id: String, p: Pledge)
        ensures
            final(self)@ == old(self)@.insert(id@, p@),
    {
        self.pledges.insert(id, p);
        proof {
            assert(self@ =~= old(self)@.insert(id@, p@));
        }
    }

    /// How many records the ledger holds.
    pub fn len(&self) -> (n: usize)
        ensures
            n == self@.len(),
    {
        proof {
            broadcast use vstd::hash_map::axiom_string_hash_map_spec_len;

            assert(self.pledges@.dom() =~= self@.dom());
        }
        self.pledges.len()
    }
}

} // verus!
