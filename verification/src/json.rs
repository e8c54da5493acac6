//! The few pieces of JSON and text that a contract reads and writes
//! itself. Numbers are written by hand; everything else is left to
//! `serde_json_wasm` and `cosmwasm_std`.

use vstd::prelude::*;
use vstd::utf8::{decode_utf8, valid_utf8};
use crate::types::{coin_views, Coin, CoinView};

verus! {

/// The decimal digits of a number, as ASCII.
pub open spec fn decimal(n: nat) -> Seq<u8>
    decreases n,
{
    if n < 10 {
        seq![(48 + n) as u8]
    } else {
        decimal(n / 10).push((48 + n % 10) as u8)
    }
}

/// Writes a number in decimal digits.
pub fn decimal_u8(n: u8) -> (digits: Vec<u8>)
    ensures
        digits@ == decimal(n as nat),
{
    let mut digits: Vec<u8> = Vec::new();
    if n >= 100 {
        digits.push(48 + n / 100);
    }
    if n >= 10 {
        digits.push(48 + (n / 10) % 10);
    }
    digits.push(48 + n % 10);
    proof {
        let value = n as nat;
        if n >= 100 {
            assert(decimal(value / 100) =~= seq![(48 + value / 100) as u8]);
            assert(decimal(value / 10) =~= decimal(value / 10 / 10).push(
                (48 + (value / 10) % 10) as u8,
            ));
            assert(digits@ =~= decimal(value));
        } else if n >= 10 {
            assert(decimal(value / 10) =~= seq![(48 + value / 10) as u8]);
            assert(digits@ =~= decimal(value));
        } else {
            assert(digits@ =~= decimal(value));
        }
    }
    digits
}

/// What `serde_json_wasm::from_slice::<u8>` returns for a byte string: the
/// number, or the text of its error.
pub uninterp spec fn json_u8(json: Seq<u8>) -> Result<u8, Seq<char>>;

/// What `serde_json_wasm::from_slice::<cosmwasm_std::Binary>` returns for
/// a byte string: the bytes, or the text of its error.
pub uninterp spec fn json_binary(json: Seq<u8>) -> Result<Seq<u8>, Seq<char>>;

/// What `serde_json_wasm::from_slice::<String>` returns for a byte string:
/// the text, or the text of its error.
pub uninterp spec fn json_string(json: Seq<u8>) -> Result<Seq<char>, Seq<char>>;

/// What `cosmwasm_std::to_binary` returns for a list of coins: the JSON,
/// or nothing where it returns an error.
pub uninterp spec fn coins_json(coins: Seq<CoinView>) -> Option<Seq<u8>>;

/// Calls `serde_json_wasm::to_vec` on a `u8`. Trusted: the serializer
/// writes the number's decimal digits and cannot fail on a number.
#[verifier::external_body]
pub(crate) fn to_json_u8(n: u8) -> (json: Option<Vec<u8>>)
    ensures
        json is Some,
        json->Some_0@ == decimal(n as nat),
{
    serde_json_wasm::to_vec(&n).ok()
}

/// Calls `serde_json_wasm::from_slice` for a `u8`. Trusted: the call is a
/// function of the bytes, and its result is given the name `json_u8`.
#[verifier::external_body]
pub(crate) fn from_json_u8(json: &[u8]) -> (parsed: Result<u8, String>)
    ensures
        match json_u8(json@) {
            Ok(n) => parsed == Ok::<u8, String>(n),
            Err(text) => parsed is Err && parsed->Err_0@ == text,
        },
{
    serde_json_wasm::from_slice::<u8>(json).map_err(|e| e.to_string())
}

/// Calls `serde_json_wasm::from_slice` for a `cosmwasm_std::Binary`.
/// Trusted: the call is a function of the bytes, and its result is given
/// the name `json_binary`.
#[verifier::external_body]
pub(crate) fn from_json_binary(json: &[u8]) -> (parsed: Result<Vec<u8>, String>)
    ensures
        match json_binary(json@) {
            Ok(bytes) => parsed is Ok && parsed->Ok_0@ == bytes,
            Err(text) => parsed is Err && parsed->Err_0@ == text,
        },
{
    serde_json_wasm::from_slice::<cosmwasm_std::Binary>(json).map(|b| b.0).map_err(
        |e| e.to_string(),
    )
}

/// Calls `serde_json_wasm::from_slice` for a `String`. Trusted: the call
/// is a function of the bytes, and its result is given the name
/// `json_string`.
#[verifier::external_body]
pub(crate) fn from_json_string(json: &[u8]) -> (parsed: Result<String, String>)
    ensures
        match json_string(json@) {
            Ok(text) => parsed is Ok && parsed->Ok_0@ == text,
            Err(text) => parsed is Err && parsed->Err_0@ == text,
        },
{
    serde_json_wasm::from_slice::<String>(json).map_err(|e| e.to_string())
}

/// Calls `cosmwasm_std::to_binary` on a list of coins. Trusted: the call
/// is a function of the coins, and its result is given the name
/// `coins_json`.
#[verifier::external_body]
pub(crate) fn to_json_coins(coins: &Vec<Coin>) -> (json: Option<Vec<u8>>)
    ensures
        json is Some <==> coins_json(coin_views(coins@)) is Some,
        json is Some ==> json->Some_0@ == coins_json(coin_views(coins@))->Some_0,
{
    let outside: Vec<cosmwasm_std::Coin> = coins.iter().map(
        |c| cosmwasm_std::Coin { denom: c.denom.clone(), amount: cosmwasm_std::Uint128(c.amount.0) },
    ).collect();
    cosmwasm_std::to_binary(&outside).ok().map(|b| b.0)
}

/// Calls `String::from_utf8`. Trusted: it succeeds on exactly the valid
/// UTF-8 strings and gives the text that the bytes encode.
#[verifier::external_body]
pub(crate) fn text_from_utf8(bytes: Vec<u8>) -> (text: Option<String>)
    ensures
        text is Some <==> valid_utf8(bytes@),
        text is Some ==> text->Some_0@ == decode_utf8(bytes@),
{
    String::from_utf8(bytes).ok()
}

} // verus!
