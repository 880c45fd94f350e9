use vstd::prelude::*;
use vstd::utf8::*;

verus! {

/// The lower-case hexadecimal digit of `d`, for `0 <= d < 16`.
pub open spec fn hex_digit(d: int) -> char {
    if d < 10 {
        ('0' as int + d) as char
    } else {
        ('a' as int + d - 10) as char
    }
}

/// How a JSON string holds the character `c`: the quote and the backslash
/// behind a backslash, the control characters below 0x20 by their short
/// escapes or as `\u00` and two hexadecimal digits, every other character as it is.
pub open spec fn json_escape_char(c: char) -> Seq<char> {
    if c == '"' {
        seq!['\\', '"']
    } else if c == '\\' {
        seq!['\\', '\\']
    } else if c == '\u{8}' {
        seq!['\\', 'b']
    } else if c == '\t' {
        seq!['\\', 't']
    } else if c == '\n' {
        seq!['\\', 'n']
    } else if c == '\u{c}' {
        seq!['\\', 'f']
    } else if c == '\r' {
        seq!['\\', 'r']
    } else if (c as u32) < 0x20 {
        seq!['\\', 'u', '0', '0', hex_digit(c as int / 16), hex_digit(c as int % 16)]
    } else {
        seq![c]
    }
}

/// The characters between the quotes of the JSON string that holds `s`.
pub open spec fn json_string_contents(s: Seq<char>) -> Seq<char>
    decreases s.len(),
{
    if s.len() == 0 {
        Seq::<char>::empty()
    } else {
        json_escape_char(s[0]) + json_string_contents(s.drop_first())
    }
}

/// Law: the hexadecimal digits are `0` to `9`, then `a` to `f`.
pub proof fn lemma_hex_digits()
    ensures
        hex_digit(0) == '0',
        hex_digit(9) == '9',
        hex_digit(10) == 'a',
        hex_digit(15) == 'f',
{
}

/// Law: text without quotes, backslashes and control characters below 0x20
/// stands in a JSON string as it is; the quote and the backslash each stand
/// behind a backslash.
pub proof fn lemma_json_plain(s: Seq<char>)
    requires
        forall|i: int| 0 <= i < s.len() ==> s[i] != '"' && s[i] != '\\' && (s[i] as u32) >= 0x20,
    ensures
        json_string_contents(s) == s,
        json_escape_char('"') == seq!['\\', '"'],
        json_escape_char('\\') == seq!['\\', '\\'],
    decreases s.len(),
{
    if s.len() > 0 {
        lemma_json_plain(s.drop_first());
        assert(json_escape_char(s[0]) == seq![s[0]]);
        assert(seq![s[0]] + s.drop_first() =~= s);
    } else {
        assert(json_string_contents(s) =~= s);
    }
}

/// The compact JSON of the CW20 query for the balance of `address`,
/// `{"balance":{"address":"..."}}`, as UTF-8 bytes.
pub open spec fn cw20_balance_query_json(address: Seq<char>) -> Seq<u8> {
    encode_utf8(
        "{\"balance\":{\"address\":\""@ + json_string_contents(address) + "\"}}"@,
    )
}

/// Calls `cosmwasm_std::to_json_vec` (which is `serde_json::to_vec`) on
/// `cw20::Cw20QueryMsg::Balance { address }`. Claimed: it succeeds, and the bytes
/// are the compact JSON `cw20_balance_query_json(address)`. The message is an
/// externally tagged enum with `rename_all = "snake_case"`, so the variant is the
/// key `balance` over an object with the one field `address`; serde_json escapes
/// a string with its `ESCAPE` table (quote, backslash, the bytes below 0x20, the
/// latter with lower-case hex digits) and writes into a `Vec`, which cannot fail;
/// the message holds no map, and its `Serialize` impl, derived, never fails.
#[verifier::external_body]
pub(crate) fn cw20_balance_query_msg(address: &str) -> (res: Result<Vec<u8>, cosmwasm_std::StdError>)
    ensures
        res is Ok,
        res matches Ok(bytes) ==> bytes@ == cw20_balance_query_json(address@),
{
    cosmwasm_std::to_json_vec(&cw20::Cw20QueryMsg::Balance { address: address.to_string() })
}

/// Calls `String::from_utf8`, turning its error into the chain's standard error
/// as the `?` operator does. Claimed, as std documents it: the call succeeds
/// exactly when the bytes are valid UTF-8, and then holds the characters they encode.
#[verifier::external_body]
pub(crate) fn string_from_utf8(bytes: Vec<u8>) -> (res: Result<String, cosmwasm_std::StdError>)
    ensures
        res is Ok <==> valid_utf8(bytes@),
        res matches Ok(s) ==> s@ == decode_utf8(bytes@),
{
    Ok(String::from_utf8(bytes)?)
}

} // verus!
