use vstd::prelude::*;
use crate::error::ContractError;
use crate::msg::AccessGrant;
use crate::state::Coin;

verus! {

/// Funds exactness: exactly one fund entry is attached, it carries the
/// expected denomination, and the expected quantity where one is required.
pub open spec fn funds_ok(
    funds: Seq<Coin>,
    expected_denom: Seq<char>,
    required_amount: Option<u128>,
) -> bool {
    &&& funds.len() == 1
    &&& funds[0].denom@ == expected_denom
    &&& match required_amount {
        Some(q) => funds[0].amount == q,
        None => true,
    }
}

/// The grant the external holding oracle reports for `address`: the first
/// entry naming it, in the order the oracle lists them.
pub open spec fn find_grant(grants: Seq<AccessGrant>, address: Seq<char>) -> Option<AccessGrant>
    decreases grants.len(),
{
    if grants.len() == 0 {
        None
    } else if grants[0].address@ == address {
        Some(grants[0])
    } else {
        find_grant(grants.subrange(1, grants.len() as int), address)
    }
}

/// The contract identity holds a restricted grant over the marker account:
/// the oracle lists a grant for it, and that grant does not carry the highest
/// ("admin") tier — a deliberate defense-in-depth constraint.
pub open spec fn marker_access_ok(
    grants: Seq<AccessGrant>,
    contract_address: Seq<char>,
    admin_access: i32,
) -> bool {
    match find_grant(grants, contract_address) {
        Some(g) => !g.permissions@.contains(admin_access),
        None => false,
    }
}

/// The marker account's whole balance sits in one undistributed holding,
/// attributed to the marker account itself.
pub open spec fn marker_holding_ok(holders: Seq<String>, marker_address: Seq<char>) -> bool {
    holders.len() == 1 && holders[0]@ == marker_address
}

/// Fails with `InvalidFunds` unless exactly one fund entry is attached and it
/// matches the expected denomination and, when given, the expected quantity.
pub fn check_funds(
    funds: &Vec<Coin>,
    expected_denom: &String,
    required_amount: Option<u128>,
) -> (r: Result<(), ContractError>)
    ensures
        r is Ok <==> funds_ok(funds@, expected_denom@, required_amount),
        r matches Err(e) ==> e == ContractError::InvalidFunds,
{
    if funds.len() != 1 {
        return Err(ContractError::InvalidFunds);
    }
    if !funds[0].denom.eq(expected_denom) {
        return Err(ContractError::InvalidFunds);
    }
    match required_amount {
        Some(q) => {
            if funds[0].amount == q {
                Ok(())
            } else {
                Err(ContractError::InvalidFunds)
            }
        },
        None => Ok(()),
    }
}

/// Fails with `InvalidMarkerPermissions` unless the oracle lists a grant for
/// `contract_address` over the marker account and that grant does not carry
/// the admin tier.
pub fn check_marker_access(
    grants: &Vec<AccessGrant>,
    contract_address: &String,
    admin_access: i32,
) -> (r: Result<(), ContractError>)
    ensures
        r is Ok <==> marker_access_ok(grants@, contract_address@, admin_access),
        r matches Err(e) ==> e == ContractError::InvalidMarkerPermissions,
{
    let n = grants.len();
    proof {
        assert(grants@.subrange(0, n as int) =~= grants@);
    }
    let mut i: usize = 0;
    while i < n
        invariant
            i <= n,
            n == grants@.len(),
            find_grant(grants@, contract_address@) == find_grant(
                grants@.subrange(i as int, n as int),
                contract_address@,
            ),
        decreases n - i,
    {
        proof {
            assert(grants@.subrange(i as int, n as int)[0] == grants@[i as int]);
        }
        if grants[i].address.eq(contract_address) {
            let g = &grants[i];
            proof {
                assert(find_grant(grants@, contract_address@) == Some(grants@[i as int]));
            }
            let m = g.permissions.len();
            let mut j: usize = 0;
            while j < m
                invariant
                    j <= m,
                    i < n,
                    n == grants@.len(),
                    m == g.permissions@.len(),
                    *g == grants@[i as int],
                    find_grant(grants@, contract_address@) == Some(grants@[i as int]),
                    forall|t: int| 0 <= t < j ==> g.permissions@[t] != admin_access,
                decreases m - j,
            {
                if g.permissions[j] == admin_access {
                    proof {
                        assert(g.permissions@.contains(admin_access));
                    }
                    return Err(ContractError::InvalidMarkerPermissions);
                }
                j += 1;
            }
            proof {
                assert(!g.permissions@.contains(admin_access));
            }
            return Ok(());
        }
        proof {
            assert(grants@.subrange(i as int, n as int).subrange(
                1,
                (n - i) as int,
            ) =~= grants@.subrange(i + 1, n as int));
        }
        i += 1;
    }
    proof {
        assert(grants@.subrange(n as int, n as int).len() == 0);
    }
    Err(ContractError::InvalidMarkerPermissions)
}

/// Fails with `InvalidMarkerHolding` unless exactly one holder of the marker
/// account's balance exists and it is the marker account itself.
pub fn check_marker_holding(holders: &Vec<String>, marker_address: &String) -> (r: Result<
    (),
    ContractError,
>)
    ensures
        r is Ok <==> marker_holding_ok(holders@, marker_address@),
        r matches Err(e) ==> e == ContractError::InvalidMarkerHolding,
{
    if holders.len() == 1 {
        if holders[0].eq(marker_address) {
            return Ok(());
        }
    }
    Err(ContractError::InvalidMarkerHolding)
}

/// Fails with `Unauthorized` unless the registry's current owner of the
/// right-token equals the expected owner.
pub fn check_nft_owner(owner: &String, expected_owner: &String) -> (r: Result<(), ContractError>)
    ensures
        r is Ok <==> owner@ == expected_owner@,
        r matches Err(e) ==> e == ContractError::Unauthorized,
{
    if owner.eq(expected_owner) {
        Ok(())
    } else {
        Err(ContractError::Unauthorized)
    }
}

} // verus!
