//! The calls this library makes into the Solana crates.
//!
//! Each function here hands plain values to one outside function and hands
//! plain values back. Their contracts are taken from the outside source and
//! are assumed, not proved.

use crate::record::CommitmentLevel;
use vstd::prelude::*;

verus! {

/// How a submitted transaction may be encoded on the wire.
#[derive(Clone, Copy, Debug, PartialEq, Eq, Structural)]
pub enum TransactionEncoding {
    /// Legacy name of base58.
    Binary,
    Base64,
    Base58,
    Json,
    JsonParsed,
}

/// The two encodings that carry the raw bytes of a transaction.
#[derive(Clone, Copy, Debug, PartialEq, Eq, Structural)]
pub enum BinaryEncoding {
    Base58,
    Base64,
}

/// The binary encoding behind a transaction encoding; the JSON encodings
/// have none.
pub open spec fn binary_encoding_spec(encoding: TransactionEncoding) -> Option<BinaryEncoding> {
    match encoding {
        TransactionEncoding::Binary | TransactionEncoding::Base58 => Some(BinaryEncoding::Base58),
        TransactionEncoding::Base64 => Some(BinaryEncoding::Base64),
        TransactionEncoding::Json | TransactionEncoding::JsonParsed => None,
    }
}

/// The name under which an encoding appears in requests and messages.
pub open spec fn encoding_name_spec(encoding: TransactionEncoding) -> Seq<char> {
    match encoding {
        TransactionEncoding::Binary => "binary"@,
        TransactionEncoding::Base64 => "base64"@,
        TransactionEncoding::Base58 => "base58"@,
        TransactionEncoding::Json => "json"@,
        TransactionEncoding::JsonParsed => "jsonParsed"@,
    }
}

/// The text form of a 64-byte signature: its base58 encoding, as
/// `solana_sdk::signature::Signature` displays it.
pub uninterp spec fn signature_text(bytes: Seq<u8>) -> Seq<char>;

/// Calls `UiTransactionEncoding::into_binary_encoding` of
/// `solana_transaction_status`. Assumed: `Binary` and `Base58` give base58,
/// `Base64` gives base64, and the two JSON encodings give nothing.
#[verifier::external_body]
pub(crate) fn into_binary_encoding(encoding: TransactionEncoding) -> (binary: Option<BinaryEncoding>)
    ensures
        binary == binary_encoding_spec(encoding),
{
    let outside = match encoding {
        TransactionEncoding::Binary => solana_transaction_status::UiTransactionEncoding::Binary,
        TransactionEncoding::Base64 => solana_transaction_status::UiTransactionEncoding::Base64,
        TransactionEncoding::Base58 => solana_transaction_status::UiTransactionEncoding::Base58,
        TransactionEncoding::Json => solana_transaction_status::UiTransactionEncoding::Json,
        TransactionEncoding::JsonParsed => solana_transaction_status::UiTransactionEncoding::JsonParsed,
    };
    match outside.into_binary_encoding() {
        Some(solana_transaction_status::TransactionBinaryEncoding::Base58) => Some(BinaryEncoding::Base58),
        Some(solana_transaction_status::TransactionBinaryEncoding::Base64) => Some(BinaryEncoding::Base64),
        None => None,
    }
}

/// Calls the `Display` implementation of `UiTransactionEncoding` of
/// `solana_transaction_status`. Assumed: it prints the variant's name in
/// camel case, as the type is serialised.
#[verifier::external_body]
pub(crate) fn encoding_name(encoding: TransactionEncoding) -> (name: String)
    ensures
        name@ == encoding_name_spec(encoding),
{
    let outside = match encoding {
        TransactionEncoding::Binary => solana_transaction_status::UiTransactionEncoding::Binary,
        TransactionEncoding::Base64 => solana_transaction_status::UiTransactionEncoding::Base64,
        TransactionEncoding::Base58 => solana_transaction_status::UiTransactionEncoding::Base58,
        TransactionEncoding::Json => solana_transaction_status::UiTransactionEncoding::Json,
        TransactionEncoding::JsonParsed => solana_transaction_status::UiTransactionEncoding::JsonParsed,
    };
    outside.to_string()
}

/// Calls the `Display` implementation of `solana_sdk::signature::Signature`
/// on a signature made of these 64 bytes. Assumed: the text depends on the
/// bytes alone.
#[verifier::external_body]
pub(crate) fn signature_string(bytes: &[u8; 64]) -> (text: String)
    ensures
        text@ == signature_text(bytes@),
{
    solana_sdk::signature::Signature::from(*bytes).to_string()
}

/// Calls `CommitmentLevel::default` of `solana_sdk::commitment_config`.
/// Assumed: the default commitment is `Finalized`.
#[verifier::external_body]
pub(crate) fn default_commitment() -> (level: CommitmentLevel)
    ensures
        level == CommitmentLevel::Finalized,
{
    match solana_sdk::commitment_config::CommitmentLevel::default() {
        solana_sdk::commitment_config::CommitmentLevel::Processed => CommitmentLevel::Processed,
        solana_sdk::commitment_config::CommitmentLevel::Confirmed => CommitmentLevel::Confirmed,
        solana_sdk::commitment_config::CommitmentLevel::Finalized => CommitmentLevel::Finalized,
    }
}

} // verus!
