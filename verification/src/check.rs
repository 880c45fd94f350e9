use vstd::prelude::*;

use crate::addr::Addr;
use crate::asset_info::{AssetInfo, AssetInfoBase, SpecAssetInfo};
use crate::error::AssetError;
use crate::text::{contains_str, contains_view, join_strs, join_with, str_views};

verus! {

/// What checking a native coin of denomination `denom` against the optional
/// whitelist gives: the coin itself, or, where a whitelist is given and no
/// entry of it reads as `denom`, the error that names the denomination and
/// the whitelist's entries joined by `|`.
pub open spec fn native_check_result(
    denom: Seq<char>,
    optional_whitelist: Option<&[&str]>,
    res: Result<AssetInfo, AssetError>,
) -> bool {
    match optional_whitelist {
        Some(whitelist) if !contains_view(whitelist@, denom) => res matches Err(
            AssetError::UnacceptedDenom { denom: d, whitelist: w },
        ) && d@ == denom && w@ == join_with(str_views(whitelist@), "|"@),
        _ => res matches Ok(info) && info@ == SpecAssetInfo::Native(denom),
    }
}

/// What checking a CW20 token gives once the address validator answered `answer`:
/// the token at the validated address, or the validator's error.
pub open spec fn cw20_check_result(
    answer: Result<Addr, cosmwasm_std::StdError>,
    res: Result<AssetInfo, AssetError>,
) -> bool {
    match answer {
        Ok(addr) => res matches Ok(info) && info@ == SpecAssetInfo::Cw20(addr@),
        Err(e) => res == Err::<AssetInfo, AssetError>(AssetError::Std(e)),
    }
}

impl AssetInfoBase<String> {
    /// Validates the data of an unchecked asset info and returns a checked one.
    ///
    /// - A CW20 token's contract address goes to `addr_validate`, the chain's
    ///   address validator; its answer decides.
    /// - A native coin's denomination must be among the entries of the
    ///   whitelist, where one is given.
    pub fn check<F>(&self, addr_validate: F, optional_whitelist: Option<&[&str]>) -> (res: Result<
        AssetInfo,
        AssetError,
    >) where F: Fn(&str) -> Result<Addr, cosmwasm_std::StdError>
        requires
            forall|input: &str| #[trigger] addr_validate.requires((input,)),
        ensures
            match self {
                AssetInfoBase::Native(denom) => native_check_result(denom@, optional_whitelist, res),
                AssetInfoBase::Cw20(contract_addr) => exists|input: &str, answer: Result<Addr, cosmwasm_std::StdError>|
                    input@ == contract_addr@ && #[trigger] addr_validate.ensures((input,), answer)
                        && cw20_check_result(answer, res),
            },
            match self {
                AssetInfoBase::Native(denom) => {
                    &&& res is Ok ==> res->Ok_0@ == SpecAssetInfo::Native(denom@)
                    &&& optional_whitelist is None ==> res is Ok
                    &&& optional_whitelist matches Some(whitelist) ==> (res is Ok <==> exists|i: int|
                        0 <= i < whitelist@.len() && whitelist@[i]@ == denom@)
                },
                AssetInfoBase::Cw20(contract_addr) => exists|input: &str, answer: Result<Addr, cosmwasm_std::StdError>|
                    input@ == contract_addr@ && #[trigger] addr_validate.ensures((input,), answer)
                        && match answer {
                        Ok(addr) => res is Ok && res->Ok_0@ == SpecAssetInfo::Cw20(addr@),
                        Err(e) => res == Err::<AssetInfo, AssetError>(AssetError::Std(e)),
                    },
            },
    {
        match self {
            AssetInfoBase::Native(denom) => {
                if let Some(whitelist) = optional_whitelist {
                    if !contains_str(whitelist, denom.as_str()) {
                        return Err(
                            AssetError::UnacceptedDenom {
                                denom: denom.clone(),
                                whitelist: join_strs(whitelist, "|"),
                            },
                        );
                    }
                }
                Ok(AssetInfoBase::Native(denom.clone()))
            },
            AssetInfoBase::Cw20(contract_addr) => {
                let input = contract_addr.as_str();
                let answer = addr_validate(input);
                match answer {
                    Ok(addr) => Ok(AssetInfoBase::Cw20(addr)),
                    Err(e) => Err(AssetError::Std(e)),
                }
            },
        }
    }
}

/// Law: a native coin passes a given whitelist exactly when some entry of the
/// whitelist reads as its denomination, entry for entry and character for
/// character; what passes is the same coin, and without a whitelist every coin passes.
pub proof fn lemma_whitelist_exact(
    denom: Seq<char>,
    optional_whitelist: Option<&[&str]>,
    res: Result<AssetInfo, AssetError>,
)
    requires
        native_check_result(denom, optional_whitelist, res),
    ensures
        res is Ok ==> res->Ok_0@ == SpecAssetInfo::Native(denom),
        optional_whitelist is None ==> res is Ok,
        optional_whitelist matches Some(whitelist) ==> (res is Ok <==> exists|i: int|
            0 <= i < whitelist@.len() && whitelist@[i]@ == denom),
        res matches Err(e) ==> (e matches AssetError::UnacceptedDenom { denom: d, .. } && d@ == denom),
{
}

/// Law: the address validator decides a CW20 token: a refusal is passed on
/// as it came, and an acceptance gives the token at the address the validator
/// returned; a checked token comes from nothing but an acceptance.
pub proof fn lemma_validator_decides(
    answer: Result<Addr, cosmwasm_std::StdError>,
    res: Result<AssetInfo, AssetError>,
)
    requires
        cw20_check_result(answer, res),
    ensures
        answer matches Err(e) ==> res == Err::<AssetInfo, AssetError>(AssetError::Std(e)),
        answer is Err ==> res is Err,
        res is Ok ==> (answer matches Ok(addr) && res->Ok_0@ == SpecAssetInfo::Cw20(addr@)),
{
}

/// Law: checking the unchecked form of a checked asset info gives back an asset
/// info that stands for the same asset, when the address validator accepts the
/// address as it is and a whitelist, where one is given, holds the denomination.
pub proof fn lemma_check_accepts_checked(
    info: SpecAssetInfo,
    optional_whitelist: Option<&[&str]>,
    answer: Result<Addr, cosmwasm_std::StdError>,
    res: Result<AssetInfo, AssetError>,
)
    requires
        match info {
            SpecAssetInfo::Native(denom) => {
                &&& native_check_result(denom, optional_whitelist, res)
                &&& optional_whitelist matches Some(whitelist) ==> contains_view(whitelist@, denom)
            },
            SpecAssetInfo::Cw20(contract) => {
                &&& cw20_check_result(answer, res)
                &&& answer matches Ok(addr) && addr@ == contract
            },
        },
    ensures
        res matches Ok(checked) && checked@ == info,
{
}

} // verus!
