use vstd::prelude::*;
use vstd::string::*;

use crate::addr::Addr;
use crate::asset_info::{
    lemma_text_form, spec_display, spec_inner, spec_prefix, AssetInfoBase, SpecAssetInfo,
};
use crate::error::AssetError;
use crate::text::{
    join_with, lemma_split_append_plain, lemma_split_append_sep, lemma_split_join,
    lemma_split_nonempty, lemma_split_pieces_plain, split_by, split_on, str_eq,
};

verus! {

/// What the text `s` reads as, if it is of the form `native:{denom}` or
/// `cw20:{contract_addr}`: split at every `:`, it must give exactly two pieces,
/// the first of them `native` or `cw20`.
pub open spec fn spec_parse(s: Seq<char>) -> Option<SpecAssetInfo> {
    let words = split_on(s, ':');
    if words.len() == 2 && words[0] == "native"@ {
        Some(SpecAssetInfo::Native(words[1]))
    } else if words.len() == 2 && words[0] == "cw20"@ {
        Some(SpecAssetInfo::Cw20(words[1]))
    } else {
        None
    }
}

/// The error that reading the text `s` gives when `s` is not of the expected form:
/// a known type with a wrong number of pieces, or an unknown type.
pub open spec fn is_parse_error(s: Seq<char>, e: AssetError) -> bool {
    let words = split_on(s, ':');
    if words[0] == "native"@ {
        e matches AssetError::InvalidAssetInfoFormat { received, should_be } && received@ == s
            && should_be@ == "native:{denom}"@
    } else if words[0] == "cw20"@ {
        e matches AssetError::InvalidAssetInfoFormat { received, should_be } && received@ == s
            && should_be@ == "cw20:{contract_addr}"@
    } else {
        e matches AssetError::InvalidAssetType { ty } && ty@ == words[0]
    }
}

/// Splitting a tag free of `:`, then a `:`, gives the tag and an empty piece.
proof fn lemma_split_tag(tag: Seq<char>)
    requires
        !tag.contains(':'),
    ensures
        split_on(tag.push(':'), ':') == seq![tag, Seq::<char>::empty()],
{
    let e = Seq::<char>::empty();
    lemma_split_append_plain(e, tag, ':');
    assert(e + tag =~= tag);
    assert(split_on(e, ':') =~= seq![e]);
    assert(split_on(tag, ':') =~= seq![tag]);
    lemma_split_append_sep(tag, ':');
}

/// Law: the text form of an asset info reads back as the same asset info,
/// provided its denomination or address holds no `:`.
pub proof fn lemma_display_parse_roundtrip(info: SpecAssetInfo)
    requires
        !spec_inner(info).contains(':'),
    ensures
        spec_parse(spec_display(info)) == Some(info),
{
    reveal_strlit("native");
    reveal_strlit("native:");
    reveal_strlit("cw20");
    reveal_strlit("cw20:");
    let tag = match info {
        SpecAssetInfo::Native(_) => "native"@,
        SpecAssetInfo::Cw20(_) => "cw20"@,
    };
    assert(!tag.contains(':')) by {
        if tag.contains(':') {
            let k = choose|k: int| 0 <= k < tag.len() && tag[k] == ':';
        }
    }
    assert(spec_prefix(info) =~= tag.push(':'));
    lemma_split_tag(tag);
    lemma_split_append_plain(tag.push(':'), spec_inner(info), ':');
    assert(Seq::<char>::empty() + spec_inner(info) =~= spec_inner(info));
    assert(split_on(spec_display(info), ':') =~= seq![tag, spec_inner(info)]);
    assert("native"@ != "cw20"@) by {
        assert("native"@.len() != "cw20"@.len());
    }
}

/// Law: text that reads as an asset info is exactly that asset info's text form.
pub proof fn lemma_parse_display_roundtrip(s: Seq<char>)
    requires
        spec_parse(s) is Some,
    ensures
        spec_display(spec_parse(s)->0) == s,
{
    reveal_strlit("native");
    reveal_strlit("native:");
    reveal_strlit("cw20");
    reveal_strlit("cw20:");
    let words = split_on(s, ':');
    lemma_split_join(s, ':');
    assert(words.drop_last() =~= seq![words[0]]);
    assert(join_with(words.drop_last(), seq![':']) == words[0]);
    assert(join_with(words, seq![':']) == words[0] + seq![':'] + words[1]);
    if words[0] == "native"@ {
        assert("native:"@ =~= "native"@ + seq![':']);
    } else {
        assert("cw20:"@ =~= "cw20"@ + seq![':']);
    }
}

/// Law: the kind is decided by the tag alone: text that splits at its `:` into
/// `native` and `w` reads as the native coin of denomination `w`, text that
/// splits into `cw20` and `w` as the CW20 token at `w`, whatever `w` holds.
pub proof fn lemma_parse_by_tag(s: Seq<char>, w: Seq<char>)
    ensures
        split_on(s, ':') == seq!["native"@, w] ==> spec_parse(s) == Some(SpecAssetInfo::Native(w)),
        split_on(s, ':') == seq!["cw20"@, w] ==> spec_parse(s) == Some(SpecAssetInfo::Cw20(w)),
{
    reveal_strlit("native");
    reveal_strlit("cw20");
    assert("native"@ != "cw20"@) by {
        assert("native"@.len() != "cw20"@.len());
    }
}

/// Law: the text `native:` followed by `w`, and `w` holds no `:`, reads as the
/// native coin of denomination `w`; `cw20:` followed by such a `w` reads as the
/// CW20 token at `w`.
pub proof fn lemma_parse_tagged_text(w: Seq<char>)
    requires
        !w.contains(':'),
    ensures
        spec_parse("native:"@ + w) == Some(SpecAssetInfo::Native(w)),
        spec_parse("cw20:"@ + w) == Some(SpecAssetInfo::Cw20(w)),
{
    lemma_text_form(w, w);
    lemma_display_parse_roundtrip(SpecAssetInfo::Native(w));
    lemma_display_parse_roundtrip(SpecAssetInfo::Cw20(w));
}

/// Law: whatever reads as a native coin of denomination `w` is the text
/// `native:` followed by `w`, and whatever reads as a CW20 token at `w` is
/// `cw20:` followed by `w`; in both, `w` holds no `:`.
pub proof fn lemma_parse_result_text(s: Seq<char>)
    ensures
        spec_parse(s) matches Some(SpecAssetInfo::Native(w)) ==> s == "native:"@ + w && !w.contains(':'),
        spec_parse(s) matches Some(SpecAssetInfo::Cw20(w)) ==> s == "cw20:"@ + w && !w.contains(':'),
{
    if spec_parse(s) is Some {
        lemma_parse_display_roundtrip(s);
        lemma_split_pieces_plain(s, ':');
        let words = split_on(s, ':');
        assert(!words[1].contains(':'));
        match spec_parse(s) {
            Some(SpecAssetInfo::Native(w)) => lemma_text_form(w, w),
            Some(SpecAssetInfo::Cw20(w)) => lemma_text_form(w, w),
            None => {},
        }
    }
}

/// Law: text is refused when it does not split at `:` into exactly two pieces,
/// or when its first piece is neither `native` nor `cw20`.
pub proof fn lemma_parse_refuses(s: Seq<char>)
    ensures
        split_on(s, ':').len() != 2 ==> spec_parse(s) is None,
        split_on(s, ':')[0] != "native"@ && split_on(s, ':')[0] != "cw20"@ ==> spec_parse(s) is None,
        !s.contains(':') ==> spec_parse(s) is None,
{
    if !s.contains(':') {
        crate::text::lemma_split_plain(s, ':');
    }
}

/// Reads the text form `s`: whether it names a native coin, and the text after the `:`.
fn parse_parts(s: &str) -> (res: Result<(bool, String), AssetError>)
    ensures
        split_on(s@, ':').len() == 2 && split_on(s@, ':')[0] == "native"@ ==> (res matches Ok((true, inner))
            && inner@ == split_on(s@, ':')[1]),
        split_on(s@, ':').len() == 2 && split_on(s@, ':')[0] == "cw20"@ ==> (res matches Ok((false, inner))
            && inner@ == split_on(s@, ':')[1]),
        res matches Ok((true, inner)) ==> s@ == "native:"@ + inner@,
        res matches Ok((false, inner)) ==> s@ == "cw20:"@ + inner@,
        match res {
            Ok((is_native, inner)) => spec_parse(s@) == Some(
                if is_native {
                    SpecAssetInfo::Native(inner@)
                } else {
                    SpecAssetInfo::Cw20(inner@)
                },
            ),
            Err(e) => spec_parse(s@) is None && is_parse_error(s@, e),
        },
{
    let words = split_by(s, ':');
    proof {
        lemma_split_nonempty(s@, ':');
        lemma_parse_result_text(s@);
        reveal_strlit("native");
        reveal_strlit("cw20");
        assert("native"@ != "cw20"@) by {
            assert("native"@.len() != "cw20"@.len());
        }
    }
    let ty = words[0];
    assert(ty@ == split_on(s@, ':')[0]);
    if str_eq(ty, "native") {
        if words.len() != 2 {
            return Err(
                AssetError::InvalidAssetInfoFormat {
                    received: s.to_owned(),
                    should_be: "native:{denom}".to_owned(),
                },
            );
        }
        assert(words[1]@ == split_on(s@, ':')[1]);
        Ok((true, words[1].to_owned()))
    } else if str_eq(ty, "cw20") {
        if words.len() != 2 {
            return Err(
                AssetError::InvalidAssetInfoFormat {
                    received: s.to_owned(),
                    should_be: "cw20:{contract_addr}".to_owned(),
                },
            );
        }
        assert(words[1]@ == split_on(s@, ':')[1]);
        Ok((false, words[1].to_owned()))
    } else {
        Err(AssetError::InvalidAssetType { ty: ty.to_owned() })
    }
}

impl core::str::FromStr for AssetInfoBase<String> {
    type Err = AssetError;

    /// Reads `native:{denom}` or `cw20:{contract_addr}`; the address is not validated.
    fn from_str(s: &str) -> (res: Result<Self, AssetError>)
        ensures
            match res {
                Ok(info) => spec_parse(s@) == Some(info@),
                Err(e) => spec_parse(s@) is None && is_parse_error(s@, e),
            },
            split_on(s@, ':').len() == 2 && split_on(s@, ':')[0] == "native"@ ==> (res matches Ok(
                info,
            ) && info@ == SpecAssetInfo::Native(split_on(s@, ':')[1])),
            split_on(s@, ':').len() == 2 && split_on(s@, ':')[0] == "cw20"@ ==> (res matches Ok(
                info,
            ) && info@ == SpecAssetInfo::Cw20(split_on(s@, ':')[1])),
            res matches Ok(AssetInfoBase::Native(denom)) ==> s@ == "native:"@ + denom@,
            res matches Ok(AssetInfoBase::Cw20(addr)) ==> s@ == "cw20:"@ + addr@,
    {
        match parse_parts(s) {
            Ok((true, denom)) => Ok(AssetInfoBase::Native(denom)),
            Ok((false, contract_addr)) => Ok(AssetInfoBase::Cw20(contract_addr)),
            Err(e) => Err(e),
        }
    }
}

impl AssetInfoBase<Addr> {
    /// Reads `native:{denom}` or `cw20:{contract_addr}`, taking the address as
    /// valid without checking it: for text that this library wrote itself.
    pub(crate) fn from_str(s: &str) -> (res: Result<Self, AssetError>)
        ensures
            match res {
                Ok(info) => spec_parse(s@) == Some(info@),
                Err(e) => spec_parse(s@) is None && is_parse_error(s@, e),
            },
            split_on(s@, ':').len() == 2 && split_on(s@, ':')[0] == "native"@ ==> (res matches Ok(
                info,
            ) && info@ == SpecAssetInfo::Native(split_on(s@, ':')[1])),
            split_on(s@, ':').len() == 2 && split_on(s@, ':')[0] == "cw20"@ ==> (res matches Ok(
                info,
            ) && info@ == SpecAssetInfo::Cw20(split_on(s@, ':')[1])),
            res matches Ok(AssetInfoBase::Native(denom)) ==> s@ == "native:"@ + denom@,
            res matches Ok(AssetInfoBase::Cw20(addr)) ==> s@ == "cw20:"@ + addr@,
    {
        match parse_parts(s) {
            Ok((true, denom)) => Ok(AssetInfoBase::Native(denom)),
            Ok((false, contract_addr)) => Ok(AssetInfoBase::Cw20(Addr::from_string(contract_addr))),
            Err(e) => Err(e),
        }
    }
}

} // verus!
