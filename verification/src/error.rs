use vstd::prelude::*;

verus! {

/// The chain's standard error, carried through unchanged when the chain's
/// address validator or a JSON encoder refuses its input.
#[verifier::external_type_specification]
#[verifier::external_body]
pub struct ExStdError(cosmwasm_std::StdError);

/// Why an asset descriptor could not be built, parsed or accepted.
#[derive(Debug)]
pub enum AssetError {
    /// An error of the chain, passed on as it came.
    Std(cosmwasm_std::StdError),
    /// The text before the first `:` names neither `native` nor `cw20`.
    InvalidAssetType { ty: String },
    /// The text names a known asset type but is not of the form `should_be`.
    InvalidAssetInfoFormat { received: String, should_be: String },
    /// A native coin whose denomination the whitelist does not hold.
    UnacceptedDenom { denom: String, whitelist: String },
}

} // verus!
