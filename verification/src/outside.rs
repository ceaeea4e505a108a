//! What the library has from other crates: addresses, amounts and transactions of
//! `bitcoin`, node keys and amounts of `cln_rpc`, and JSON texts of `serde_json`.
use vstd::prelude::*;

use bitcoin::Address;
use bitcoin::Amount;
use bitcoin::Transaction;
use cln_rpc::primitives::PublicKey;
use serde_json::Value;
use std::str::FromStr;

use crate::hexadecimal::is_hex;
use crate::hexadecimal::lower_hex;

verus! {

/// `bitcoin::Address`.
#[verifier::external_type_specification]
#[verifier::external_body]
pub struct ExAddress(bitcoin::Address);

/// The error of parsing a `bitcoin::Address`.
#[verifier::external_type_specification]
#[verifier::external_body]
pub struct ExAddressError(bitcoin::util::address::Error);

/// `bitcoin::Amount`.
#[verifier::external_type_specification]
#[verifier::external_body]
pub struct ExAmount(bitcoin::Amount);

/// `bitcoin::Transaction`.
#[verifier::external_type_specification]
#[verifier::external_body]
pub struct ExTransaction(bitcoin::Transaction);

/// The error of decoding a `bitcoin::Transaction`.
#[verifier::external_type_specification]
#[verifier::external_body]
pub struct ExEncodeError(bitcoin::consensus::encode::Error);

/// `cln_rpc::primitives::PublicKey`, the key that identifies a lightning node.
#[verifier::external_type_specification]
#[verifier::external_body]
pub struct ExPublicKey(cln_rpc::primitives::PublicKey);

/// The error of parsing a public key.
#[verifier::external_type_specification]
#[verifier::external_body]
pub struct ExKeyError(bitcoin::secp256k1::Error);

/// `serde_json::Value`.
#[verifier::external_type_specification]
#[verifier::external_body]
pub struct ExJsonValue(serde_json::Value);

/// The error of parsing a JSON text.
#[verifier::external_type_specification]
#[verifier::external_body]
pub struct ExJsonError(serde_json::Error);

/// The address that a text writes, by `bitcoin::Address::from_str`; `None` where it is refused.
pub uninterp spec fn parsed_address(text: Seq<char>) -> Option<Address>;

/// `bitcoin::Address::from_str`: the address that the text writes, or an error. Which texts
/// write an address is only named; it depends on the text alone.
#[verifier::external_body]
pub(crate) fn parse_address(text: &str) -> (r: Result<Address, bitcoin::util::address::Error>)
    ensures
        match r {
            Ok(address) => parsed_address(text@) == Some(address),
            Err(_) => parsed_address(text@) is None,
        },
{
    Address::from_str(text)
}

/// The amount of so many satoshi, by `bitcoin::Amount::from_sat`.
pub uninterp spec fn amount_of(satoshi: u64) -> Amount;

/// The number of satoshi that an amount is.
pub uninterp spec fn satoshi_in(amount: Amount) -> u64;

/// `bitcoin::Amount::from_sat`: the amount of so many satoshi. It depends on that number alone,
/// and is of that number.
pub assume_specification[ bitcoin::Amount::from_sat ](satoshi: u64) -> (r: Amount)
    ensures
        r == amount_of(satoshi),
        satoshi_in(r) == satoshi,
;

/// The transaction that bytes encode, by `bitcoin::consensus::encode::deserialize`;
/// `None` where they are refused.
pub uninterp spec fn decoded_transaction(bytes: Seq<u8>) -> Option<Transaction>;

/// `bitcoin::consensus::encode::deserialize` for a transaction: the transaction that the
/// bytes encode, or an error. Which bytes encode one is only named; it depends on the
/// bytes alone.
#[verifier::external_body]
pub(crate) fn decode_transaction(bytes: &[u8]) -> (r: Result<
    Transaction,
    bitcoin::consensus::encode::Error,
>)
    ensures
        match r {
            Ok(tx) => decoded_transaction(bytes@) == Some(tx),
            Err(_) => decoded_transaction(bytes@) is None,
        },
{
    bitcoin::consensus::encode::deserialize::<Transaction>(bytes)
}

/// The bytes that encode a transaction, by `bitcoin::consensus::encode::serialize`.
pub uninterp spec fn encoded_transaction(tx: Transaction) -> Seq<u8>;

/// Whether a transaction is written back as the bytes from which it was read.
pub open spec fn encodes_as_decoded(tx: Transaction, encoded: Seq<u8>) -> bool {
    forall|bytes: Seq<u8>| #[trigger] decoded_transaction(bytes) == Some(tx) ==> encoded == bytes
}

/// `bitcoin::consensus::encode::serialize` of a transaction: bytes that depend on the
/// transaction alone, and that are, for a transaction that was decoded, those from which it
/// was. The latter is stated for machines with a 64-bit `usize`: the decoder casts lengths
/// to `usize`, so that on others it reads some lengths that no encoder writes.
#[verifier::external_body]
pub(crate) fn encode_transaction(tx: &Transaction) -> (r: Vec<u8>)
    ensures
        r@ == encoded_transaction(*tx),
        usize::BITS == 64 ==> encodes_as_decoded(*tx, r@),
{
    bitcoin::consensus::encode::serialize(tx)
}

/// The key that a text writes, by the `FromStr` of `cln_rpc::primitives::PublicKey`; `None`
/// where it is refused.
pub uninterp spec fn parsed_public_key(text: Seq<char>) -> Option<PublicKey>;

/// `PublicKey::from_str` of `cln_rpc::primitives`: the key that the text writes, or an error.
/// Which texts write a key is only named; it depends on the text alone.
#[verifier::external_body]
pub(crate) fn parse_public_key(text: &str) -> (r: Result<PublicKey, bitcoin::secp256k1::Error>)
    ensures
        match r {
            Ok(key) => parsed_public_key(text@) == Some(key),
            Err(_) => parsed_public_key(text@) is None,
        },
{
    PublicKey::from_str(text)
}

/// The text of a key, by `PublicKey::to_string` of `cln_rpc::primitives`.
pub uninterp spec fn key_text(key: PublicKey) -> Seq<char>;

/// `PublicKey::to_string` of `cln_rpc::primitives`: the 33 bytes of the compressed key as
/// lower-case hexadecimal digits, a text that depends on the key alone and writes this very key.
#[verifier::external_body]
pub(crate) fn public_key_text(key: &PublicKey) -> (r: String)
    ensures
        r@ == key_text(*key),
        parsed_public_key(r@) == Some(*key),
        r@.len() == 66,
        is_hex(r@),
        lower_hex(r@) == r@,
{
    key.to_string()
}

/// `cln_rpc::primitives::Amount::from_sat`, read by `Amount::msat`: a thousand millisatoshi
/// to the satoshi. Beyond the range of `u64` the outside function overflows.
#[verifier::external_body]
pub(crate) fn millisatoshi(satoshi: u64) -> (r: u64)
    requires
        1000 * satoshi <= u64::MAX,
    ensures
        r == 1000 * satoshi,
{
    cln_rpc::primitives::Amount::from_sat(satoshi).msat()
}

/// The JSON value that a text writes, by `serde_json::from_str`; `None` where it is no JSON.
pub uninterp spec fn parsed_json(text: Seq<char>) -> Option<Value>;

/// `serde_json::from_str` into a `Value`: the value that the text writes, or an error. Which
/// texts are JSON, and of what value, is only named; it depends on the text alone.
#[verifier::external_body]
pub(crate) fn parse_json(text: &str) -> (r: Result<Value, serde_json::Error>)
    ensures
        match r {
            Ok(value) => parsed_json(text@) == Some(value),
            Err(_) => parsed_json(text@) is None,
        },
{
    serde_json::from_str::<Value>(text)
}

/// What a JSON value has under a key, by the `Index` of `serde_json::Value`.
pub uninterp spec fn json_member(value: Value, key: Seq<char>) -> Value;

/// Indexing a `serde_json::Value` by a string: the member of that key, and a null where the
/// value is no object or has no such member. Which value it is is only named; it depends on
/// the value and the key alone.
#[verifier::external_body]
pub(crate) fn member<'a>(value: &'a Value, key: &str) -> (r: &'a Value)
    ensures
        *r == json_member(*value, key@),
{
    &value[key]
}

/// The text of a JSON value that is a string, by `serde_json::Value::as_str`; `None` for other
/// values.
pub uninterp spec fn json_text(value: Value) -> Option<Seq<char>>;

/// `serde_json::Value::as_str`: the text of a value that is a string, and `None` for others.
/// Which values are strings is only named; it depends on the value alone.
pub assume_specification[ serde_json::Value::as_str ](value: &Value) -> (r: Option<&str>)
    ensures
        match r {
            Some(s) => json_text(*value) == Some(s@),
            None => json_text(*value) is None,
        },
;

/// The string that a JSON text has under a key: `None` where the text is no JSON, `Some(None)`
/// where it has no string under that key.
pub open spec fn json_string_member(text: Seq<char>, key: Seq<char>) -> Option<Option<Seq<char>>> {
    match parsed_json(text) {
        Some(value) => Some(json_text(json_member(value, key))),
        None => None,
    }
}

/// The string that a JSON text has under a key.
pub(crate) fn string_member(text: &str, key: &str) -> (r: Result<
    Option<String>,
    serde_json::Error,
>)
    ensures
        match r {
            Ok(Some(s)) => json_string_member(text@, key@) == Some(Some(s@)),
            Ok(None) => json_string_member(text@, key@) == Some(None::<Seq<char>>),
            Err(_) => json_string_member(text@, key@) is None,
        },
{
    match parse_json(text) {
        Ok(value) => match member(&value, key).as_str() {
            Some(s) => Ok(Some(s.to_owned())),
            None => Ok(None),
        },
        Err(e) => Err(e),
    }
}

/// What a JSON text has under a key is its member's string as a whole, of any length: there is one
/// exactly where the text is JSON and that member a string.
pub proof fn law_string_member_is_the_whole_string(text: Seq<char>, key: Seq<char>, value: Value)
    ensures
        json_string_member(text, key) is None <==> parsed_json(text) is None,
        parsed_json(text) == Some(value) ==> json_string_member(text, key) == Some(
            json_text(json_member(value, key)),
        ),
{
}

} // verus!
