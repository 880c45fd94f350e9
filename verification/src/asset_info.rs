use vstd::prelude::*;
use vstd::string::*;

use crate::addr::Addr;

verus! {

/// The type of a fungible asset: a native SDK coin, named by its
/// denomination, or a CW20 token, named by its contract address.
#[derive(Clone, Debug, PartialEq, Eq, PartialOrd, Ord, Hash)]
#[non_exhaustive]
pub enum AssetInfoBase<T> {
    Native(String),
    Cw20(T),
}

/// An asset info that may hold an address nobody has validated; used in messages.
pub type AssetInfoUnchecked = AssetInfoBase<String>;

/// An asset info whose address has been validated; kept in contract storage.
pub type AssetInfo = AssetInfoBase<Addr>;

/// What an asset info stands for: its kind and the characters of its
/// denomination or contract address.
pub enum SpecAssetInfo {
    Native(Seq<char>),
    Cw20(Seq<char>),
}

impl<T: View<V = Seq<char>>> View for AssetInfoBase<T> {
    type V = SpecAssetInfo;

    open spec fn view(&self) -> SpecAssetInfo {
        match self {
            AssetInfoBase::Native(denom) => SpecAssetInfo::Native(denom@),
            AssetInfoBase::Cw20(addr) => SpecAssetInfo::Cw20(addr@),
        }
    }
}

/// The denomination or the contract address that an asset info names.
pub open spec fn spec_inner(info: SpecAssetInfo) -> Seq<char> {
    match info {
        SpecAssetInfo::Native(denom) => denom,
        SpecAssetInfo::Cw20(addr) => addr,
    }
}

/// The tag that precedes the inner value in the text form and in storage keys.
pub open spec fn spec_prefix(info: SpecAssetInfo) -> Seq<char> {
    match info {
        SpecAssetInfo::Native(_) => "native:"@,
        SpecAssetInfo::Cw20(_) => "cw20:"@,
    }
}

/// The text form of an asset info: `native:{denom}` or `cw20:{contract_addr}`.
pub open spec fn spec_display(info: SpecAssetInfo) -> Seq<char> {
    spec_prefix(info) + spec_inner(info)
}

/// Law: the tag of the text form and of the storage key depends on the kind
/// alone, and the inner value is the whole denomination or address: a native
/// coin of denomination `d` reads `native:` followed by all of `d`, a CW20
/// token at `a` reads `cw20:` followed by all of `a`, whatever `d` and `a` hold.
pub proof fn lemma_text_form(d: Seq<char>, a: Seq<char>)
    ensures
        spec_prefix(SpecAssetInfo::Native(d)) == "native:"@,
        spec_prefix(SpecAssetInfo::Cw20(a)) == "cw20:"@,
        spec_inner(SpecAssetInfo::Native(d)) == d,
        spec_inner(SpecAssetInfo::Cw20(a)) == a,
        spec_display(SpecAssetInfo::Native(d)) == "native:"@ + d,
        spec_display(SpecAssetInfo::Cw20(a)) == "cw20:"@ + a,
        spec_display(SpecAssetInfo::Native(d)).len() == d.len() + 7,
        spec_display(SpecAssetInfo::Cw20(a)).len() == a.len() + 5,
        spec_display(SpecAssetInfo::Native(d)).skip(7) == d,
        spec_display(SpecAssetInfo::Cw20(a)).skip(5) == a,
{
    reveal_strlit("native:");
    reveal_strlit("cw20:");
    assert(("native:"@ + d).skip(7) =~= d);
    assert(("cw20:"@ + a).skip(5) =~= a);
}

impl<T: View<V = Seq<char>>> AssetInfoBase<T> {
    /// An asset info of the native kind, for the coin of denomination `denom`.
    pub fn native(denom: &str) -> (res: Self)
        ensures
            res@ == SpecAssetInfo::Native(denom@),
    {
        AssetInfoBase::Native(denom.to_owned())
    }
}

impl AssetInfoBase<String> {
    /// An unchecked asset info of the CW20 kind, for the token at `contract_addr`.
    pub fn cw20(contract_addr: &str) -> (res: Self)
        ensures
            res@ == SpecAssetInfo::Cw20(contract_addr@),
    {
        AssetInfoBase::Cw20(contract_addr.to_owned())
    }
}

impl AssetInfoBase<Addr> {
    /// An asset info of the CW20 kind, for the token at `contract_addr`.
    pub fn cw20(contract_addr: Addr) -> (res: Self)
        ensures
            res@ == SpecAssetInfo::Cw20(contract_addr@),
    {
        AssetInfoBase::Cw20(contract_addr)
    }

    /// The denomination of a native coin, or the contract address of a CW20 token.
    pub fn inner(&self) -> (res: String)
        ensures
            res@ == spec_inner(self@),
            match self {
                AssetInfoBase::Native(denom) => res@ == denom@,
                AssetInfoBase::Cw20(addr) => res@ == addr@,
            },
    {
        match self {
            AssetInfoBase::Native(denom) => denom.clone(),
            AssetInfoBase::Cw20(addr) => addr.as_str().to_owned(),
        }
    }

    /// The text form of the asset info: `native:{denom}` or `cw20:{contract_addr}`.
    pub fn to_string(&self) -> (res: String)
        ensures
            res@ == spec_display(self@),
            match self {
                AssetInfoBase::Native(denom) => res@ == "native:"@ + denom@,
                AssetInfoBase::Cw20(addr) => res@ == "cw20:"@ + addr@,
            },
    {
        let mut res = match self {
            AssetInfoBase::Native(_) => "native:".to_owned(),
            AssetInfoBase::Cw20(_) => "cw20:".to_owned(),
        };
        proof {
            reveal_strlit("native:");
            reveal_strlit("cw20:");
        }
        match self {
            AssetInfoBase::Native(denom) => res.append(denom.as_str()),
            AssetInfoBase::Cw20(addr) => res.append(addr.as_str()),
        }
        res
    }
}

impl From<AssetInfoBase<Addr>> for AssetInfoBase<String> {
    fn from(asset_info: AssetInfoBase<Addr>) -> (res: Self)
        ensures
            res@ == asset_info@,
    {
        match asset_info {
            AssetInfoBase::Cw20(contract_addr) => AssetInfoBase::Cw20(contract_addr.into_string()),
            AssetInfoBase::Native(denom) => AssetInfoBase::Native(denom),
        }
    }
}

impl vstd::std_specs::convert::FromSpecImpl<AssetInfoBase<Addr>> for AssetInfoBase<String> {
    open spec fn obeys_from_spec() -> bool {
        true
    }

    open spec fn from_spec(asset_info: AssetInfoBase<Addr>) -> Self {
        match asset_info {
            AssetInfoBase::Cw20(contract_addr) => AssetInfoBase::Cw20(
                contract_addr.string_of(),
            ),
            AssetInfoBase::Native(denom) => AssetInfoBase::Native(denom),
        }
    }
}

impl<'a> From<&'a AssetInfoBase<Addr>> for AssetInfoBase<String> {
    fn from(asset_info: &'a AssetInfoBase<Addr>) -> (res: Self)
        ensures
            res@ == asset_info@,
    {
        match asset_info {
            AssetInfoBase::Cw20(contract_addr) => AssetInfoBase::Cw20(contract_addr.to_string()),
            AssetInfoBase::Native(denom) => AssetInfoBase::Native(denom.clone()),
        }
    }
}

impl<'a> vstd::std_specs::convert::FromSpecImpl<&'a AssetInfoBase<Addr>> for AssetInfoBase<String> {
    open spec fn obeys_from_spec() -> bool {
        true
    }

    open spec fn from_spec(asset_info: &'a AssetInfoBase<Addr>) -> Self {
        match *asset_info {
            AssetInfoBase::Cw20(contract_addr) => AssetInfoBase::Cw20(
                contract_addr.string_of(),
            ),
            AssetInfoBase::Native(denom) => AssetInfoBase::Native(denom),
        }
    }
}

} // verus!
