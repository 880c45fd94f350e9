use vstd::prelude::*;
use vstd::string::*;

use crate::addr::Addr;
use crate::asset_info::{AssetInfoBase, SpecAssetInfo};
use crate::bindings::{cw20_balance_query_json, cw20_balance_query_msg};

verus! {

/// A balance query for the chain, as `query_balance` hands it to the querier.
pub enum BalanceQuery {
    /// Ask the bank module for the balance of `address` in the coin `denom`.
    Bank { address: String, denom: String },
    /// Send the JSON query `msg` to the token contract at `contract_addr`.
    Wasm { contract_addr: String, msg: Vec<u8> },
}

impl AssetInfoBase<Addr> {
    /// The query that asks the chain for the balance that `address` holds of this asset.
    /// For a CW20 token the query is the compact JSON `{"balance":{"address":"..."}}`.
    pub fn balance_query(&self, address: &str) -> (res: BalanceQuery)
        ensures
            match self@ {
                SpecAssetInfo::Native(denom) => res matches BalanceQuery::Bank { address: a, denom: d }
                    && a@ == address@ && d@ == denom,
                SpecAssetInfo::Cw20(contract) => res matches BalanceQuery::Wasm { contract_addr, msg }
                    && contract_addr@ == contract && msg@ == cw20_balance_query_json(address@),
            },
    {
        match self {
            AssetInfoBase::Native(denom) => BalanceQuery::Bank {
                address: address.to_owned(),
                denom: denom.clone(),
            },
            AssetInfoBase::Cw20(contract_addr) => {
                let msg = match cw20_balance_query_msg(address) {
                    Ok(msg) => msg,
                    Err(_) => vstd::pervasive::unreached(),
                };
                BalanceQuery::Wasm { contract_addr: contract_addr.as_str().to_owned(), msg }
            },
        }
    }
}

} // verus!
