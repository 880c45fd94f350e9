use vstd::prelude::*;
use vstd::string::*;
use vstd::utf8::*;

use crate::addr::Addr;
use crate::asset_info::{spec_display, spec_inner, spec_prefix, AssetInfo, AssetInfoBase, SpecAssetInfo};
use crate::bindings::string_from_utf8;
use crate::error::AssetError;
use crate::parse::{is_parse_error, lemma_display_parse_roundtrip, spec_parse};

verus! {

/// What an asset info read from the raw bytes of its storage key gives: the
/// first two bytes, a length that the storage layer puts in front, are skipped;
/// the rest must be UTF-8 text in the text form.
pub open spec fn spec_from_key(bytes: Seq<u8>) -> Option<SpecAssetInfo> {
    let text = bytes.skip(2);
    if valid_utf8(text) {
        spec_parse(decode_utf8(text))
    } else {
        None
    }
}

/// Law: the storage key written for an asset info, behind any two bytes of
/// length prefix, reads back as the same asset info, provided its denomination
/// or address holds no `:`.
pub proof fn lemma_key_roundtrip(info: SpecAssetInfo, len0: u8, len1: u8)
    requires
        !spec_inner(info).contains(':'),
    ensures
        spec_from_key(seq![len0, len1] + encode_utf8(spec_prefix(info) + spec_inner(info)))
            == Some(info),
{
    let bytes = seq![len0, len1] + encode_utf8(spec_display(info));
    assert(bytes.skip(2) =~= encode_utf8(spec_display(info)));
    encode_utf8_valid_utf8(spec_display(info));
    encode_utf8_decode_utf8(spec_display(info));
    lemma_display_parse_roundtrip(info);
}

impl AssetInfoBase<Addr> {
    /// The two segments of the storage key of the asset info: the tag
    /// (`native:` or `cw20:`) and the denomination or address.
    pub fn key_segments(&self) -> (res: (&'static str, &str))
        ensures
            res.0@ == spec_prefix(self@),
            res.1@ == spec_inner(self@),
            res.0@ + res.1@ == spec_display(self@),
            match self {
                AssetInfoBase::Native(denom) => res.0@ == "native:"@ && res.1@ == denom@,
                AssetInfoBase::Cw20(addr) => res.0@ == "cw20:"@ && res.1@ == addr@,
            },
    {
        proof {
            reveal_strlit("native:");
            reveal_strlit("cw20:");
        }
        match self {
            AssetInfoBase::Native(denom) => ("native:", denom.as_str()),
            AssetInfoBase::Cw20(addr) => ("cw20:", addr.as_str()),
        }
    }

    /// Reads an asset info back from the raw bytes of its storage key: skips the
    /// two bytes of length prefix, decodes the rest as UTF-8 and reads the text form.
    pub fn from_key(value: Vec<u8>) -> (res: Result<AssetInfo, AssetError>)
        requires
            value@.len() >= 2,
        ensures
            match res {
                Ok(info) => spec_from_key(value@) == Some(info@),
                Err(e) => spec_from_key(value@) is None && if valid_utf8(value@.skip(2)) {
                    is_parse_error(decode_utf8(value@.skip(2)), e)
                } else {
                    e is Std
                },
            },
    {
        let mut value = value;
        let ghost all = value@;
        let text = value.split_off(2);
        assert(text@ =~= all.skip(2));
        match string_from_utf8(text) {
            Ok(s) => AssetInfoBase::<Addr>::from_str(s.as_str()),
            Err(e) => Err(AssetError::Std(e)),
        }
    }
}

} // verus!
