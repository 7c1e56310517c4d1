use vstd::prelude::*;
use vstd::string::StringExecFns;
use crate::error::ContractError;
use crate::msg::{Attribute, ContractResponse, InstantiateMsg, ProvMsg};
use crate::state::{ContractConfiguration, ContractVersion, CONTRACT_NAME, CONTRACT_VERSION};
use crate::util;

verus! {

/// The registry reported that the issuance class already exists.
pub open spec fn class_in_use(class_lookup: Result<bool, String>) -> bool {
    class_lookup == Result::<bool, String>::Ok(true)
}

/// The registry's answer means the issuance class does not exist yet: either
/// it answered and found nothing, or the query failed with the registry's own
/// not-found code in its words.
pub open spec fn class_absent(class_lookup: Result<bool, String>) -> bool {
    match class_lookup {
        Ok(found) => !found,
        Err(m) => util::contains_seq(m@, "codespace: nft, code: 4"@),
    }
}

/// Initialization emits exactly one instruction: register the issuance class,
/// from the contract's own identity.
pub open spec fn instantiate_messages_ok(
    resp: ContractResponse,
    nft_class_id: Seq<char>,
    contract_address: Seq<char>,
) -> bool {
    &&& resp.messages@.len() == 1
    &&& resp.messages@[0] matches ProvMsg::CreateAssetClass {
        class_id,
        name,
        symbol,
        description,
        from_address,
    } && class_id@ == nft_class_id && name@ == "WSC"@ && symbol@ == "WSC"@ && description@
        == "WSC"@ && from_address@ == contract_address
}

/// Initialization's descriptive metadata: the method name, the settlement
/// denomination, and the issuance class.
pub open spec fn instantiate_attributes_ok(
    resp: ContractResponse,
    denom: Seq<char>,
    nft_class_id: Seq<char>,
) -> bool {
    &&& resp.attributes@.len() == 3
    &&& resp.attributes@[0].key@ == "method"@ && resp.attributes@[0].value@ == "instantiate"@
    &&& resp.attributes@[1].key@ == "denom"@ && resp.attributes@[1].value@ == denom
    &&& resp.attributes@[2].key@ == "nft_class_id"@ && resp.attributes@[2].value@ == nft_class_id
}

/// Initialization: records the contract metadata and the configuration, and
/// authorizes creation of the issuance class. `class_lookup` is the
/// registry's fresh answer about the class: whether it exists, or the words
/// of the query's failure. Fails with `NftClassInUse` when the class is
/// already registered; a query failure other than the registry's own
/// not-found answer propagates as an infrastructure error carrying the
/// registry's words.
pub fn instantiate(
    msg: InstantiateMsg,
    contract_address: &String,
    class_lookup: &Result<bool, String>,
) -> (r: Result<(ContractVersion, ContractConfiguration, ContractResponse), ContractError>)
    ensures
        r is Ok <==> class_absent(*class_lookup),
        ({
            match r {
                Ok((version, config, resp)) => {
                    &&& version.contract@ == CONTRACT_NAME@
                    &&& version.version@ == CONTRACT_VERSION@
                    &&& config.denom == msg.denom
                    &&& config.nft_class_id == msg.nft_class_id
                    &&& instantiate_messages_ok(resp, msg.nft_class_id@, contract_address@)
                    &&& instantiate_attributes_ok(resp, msg.denom@, msg.nft_class_id@)
                },
                Err(e) => {
                    &&& class_in_use(*class_lookup) ==> e == ContractError::NftClassInUse
                    &&& match *class_lookup {
                        Ok(_) => true,
                        Err(m) => !util::contains_seq(m@, "codespace: nft, code: 4"@) ==> (e matches
                        ContractError::Std(em) && em@ == "NFT querier error: "@ + m@),
                    }
                },
            }
        }),
{
    match class_lookup {
        Ok(found) => {
            if *found {
                return Err(ContractError::NftClassInUse);
            }
        },
        Err(m) => {
            if !util::contains_substring(m.as_str(), "codespace: nft, code: 4") {
                let mut em = String::from_str("NFT querier error: ");
                em.append(m.as_str());
                return Err(ContractError::Std(em));
            }
        },
    }
    let version = ContractVersion {
        contract: String::from_str(CONTRACT_NAME),
        version: String::from_str(CONTRACT_VERSION),
    };
    let config = ContractConfiguration {
        denom: msg.denom,
        nft_class_id: msg.nft_class_id,
    };
    let mut messages: Vec<ProvMsg> = Vec::new();
    messages.push(
        ProvMsg::CreateAssetClass {
            class_id: config.nft_class_id.clone(),
            name: String::from_str("WSC"),
            symbol: String::from_str("WSC"),
            description: String::from_str("WSC"),
            from_address: contract_address.clone(),
        },
    );
    let mut attributes: Vec<Attribute> = Vec::new();
    attributes.push(
        Attribute { key: String::from_str("method"), value: String::from_str("instantiate") },
    );
    attributes.push(Attribute { key: String::from_str("denom"), value: config.denom.clone() });
    attributes.push(
        Attribute {
            key: String::from_str("nft_class_id"),
            value: config.nft_class_id.clone(),
        },
    );
    Ok((version, config, ContractResponse { messages, attributes }))
}

} // verus!
