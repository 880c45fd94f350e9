//! Fungible asset descriptors for CosmWasm contracts: a native SDK coin named by
//! its denomination, or a CW20 token named by its contract address.
//!
//! - `asset_info`: the descriptor types, what they stand for, their text form.
//! - `parse`: reading the text form back.
//! - `check`: turning an unchecked descriptor into a checked one.
//! - `storage`: the storage key of a descriptor and reading it back.
//! - `query`: the balance query for a descriptor.
//! - `text`: splitting, joining and comparing strings.

mod addr;
mod asset_info;
mod bindings;
mod check;
mod error;
mod parse;
mod query;
mod storage;
pub mod text;

pub use addr::Addr;
pub use asset_info::{
    lemma_text_form, spec_display, spec_inner, spec_prefix, AssetInfo, AssetInfoBase, AssetInfoUnchecked,
    SpecAssetInfo,
};
pub use bindings::{
    cw20_balance_query_json, hex_digit, json_escape_char, json_string_contents, lemma_hex_digits,
    lemma_json_plain,
};
pub use check::{
    cw20_check_result, lemma_check_accepts_checked, lemma_validator_decides, lemma_whitelist_exact,
    native_check_result,
};
pub use error::AssetError;
pub use parse::{
    is_parse_error, lemma_display_parse_roundtrip, lemma_parse_by_tag, lemma_parse_display_roundtrip,
    lemma_parse_refuses, lemma_parse_result_text, lemma_parse_tagged_text, spec_parse,
};
pub use query::BalanceQuery;
pub use storage::{lemma_key_roundtrip, spec_from_key};
