//! Ingestion: the checks a submission passes before its record enters the
//! store, and the record that is made of it.

use crate::record::{CommitmentLevel, RecordView, StructuredView, TransactionRecord};
use crate::solana::{
    binary_encoding_spec, default_commitment, encoding_name, encoding_name_spec,
    into_binary_encoding, signature_string, signature_text, BinaryEncoding, TransactionEncoding,
};
use crate::txn_sender::TxnSender;
use vstd::prelude::*;
use vstd::string::StringExecFns;

verus! {

/// The options of a submission.
#[derive(Clone, Copy, Debug)]
pub struct SendTransactionConfig {
    pub skip_preflight: bool,
    pub preflight_commitment: Option<CommitmentLevel>,
    pub encoding: Option<TransactionEncoding>,
    pub max_retries: Option<usize>,
    pub min_context_slot: Option<u64>,
}

/// A submitted transaction after decoding: the signed bytes as they go out
/// on the wire, its signatures, and what the relay reads of its content.
#[derive(Debug)]
pub struct DecodedTransaction {
    pub wire_transaction: Vec<u8>,
    pub signatures: Vec<[u8; 64]>,
    pub structured_view: StructuredView,
}

/// Why a submission was turned down.
#[derive(Clone, Copy, Debug, PartialEq, Eq, Structural)]
pub enum RequestError {
    /// The submission asks for a preflight check, which the relay never runs.
    PreflightNotSupported,
    /// The transaction is in an encoding that does not carry its bytes.
    UnsupportedEncoding(TransactionEncoding),
    /// The transaction carries no signature.
    MalformedTransaction,
    /// A record with the same signature is in flight.
    DuplicateSignature,
}

/// A request parameter that could not be read.
#[derive(Debug)]
pub struct InvalidParams {
    pub message: String,
}

/// The encoding of a submission: base58 where it names none.
pub open spec fn effective_encoding(params: SendTransactionConfig) -> TransactionEncoding {
    match params.encoding {
        Some(encoding) => encoding,
        None => TransactionEncoding::Base58,
    }
}

/// The first check that the options of a submission fail, if any.
pub open spec fn params_rejection(params: SendTransactionConfig) -> Option<RequestError> {
    if !params.skip_preflight {
        Some(RequestError::PreflightNotSupported)
    } else if binary_encoding_spec(effective_encoding(params)) is None {
        Some(RequestError::UnsupportedEncoding(effective_encoding(params)))
    } else {
        None
    }
}

/// The first check that a submission fails, if any: its options, then its
/// signatures, then the signatures in flight.
pub open spec fn rejection(
    params: SendTransactionConfig,
    signatures: Seq<[u8; 64]>,
    live: Map<Seq<char>, RecordView>,
) -> Option<RequestError> {
    if params_rejection(params) is Some {
        params_rejection(params)
    } else if signatures.len() == 0 {
        Some(RequestError::MalformedTransaction)
    } else if live.contains_key(signature_text(signatures[0]@)) {
        Some(RequestError::DuplicateSignature)
    } else {
        None
    }
}

/// The record made of an accepted submission.
pub open spec fn accepted_record(
    txn: DecodedTransaction,
    params: SendTransactionConfig,
    default_max_retries: usize,
    now_monotonic: u64,
    now_wallclock: i64,
) -> RecordView {
    RecordView {
        signature: signature_text(txn.signatures@[0]@),
        wire_payload: txn.wire_transaction@,
        structured_view: txn.structured_view,
        submitted_monotonic: now_monotonic,
        submitted_wallclock: now_wallclock,
        last_sent_monotonic: now_monotonic,
        retry_count: 0,
        max_retries: match params.max_retries {
            Some(cap) => cap as nat,
            None => default_max_retries as nat,
        },
        requested_commitment: Some(
            match params.preflight_commitment {
                Some(level) => level,
                None => CommitmentLevel::Finalized,
            },
        ),
    }
}

/// The text of a rejection, as the caller reads it.
pub open spec fn rejection_message(error: RequestError) -> Seq<char> {
    match error {
        RequestError::PreflightNotSupported => "running preflight check is not supported"@,
        RequestError::UnsupportedEncoding(encoding) => "unsupported encoding: "@
            + encoding_name_spec(encoding) + ". Supported encodings: base58, base64"@,
        RequestError::MalformedTransaction => "transaction carries no signature"@,
        RequestError::DuplicateSignature => "transaction is already in flight"@,
    }
}

impl RequestError {
    /// The text of this rejection.
    pub fn message(&self) -> (text: String)
        ensures
            text@ == rejection_message(*self),
    {
        match self {
            RequestError::PreflightNotSupported => {
                "running preflight check is not supported".to_owned()
            },
            RequestError::UnsupportedEncoding(encoding) => {
                let name = encoding_name(*encoding);
                let mut text = "unsupported encoding: ".to_owned();
                text.append(name.as_str());
                text.append(". Supported encodings: base58, base64");
                text
            },
            RequestError::MalformedTransaction => "transaction carries no signature".to_owned(),
            RequestError::DuplicateSignature => "transaction is already in flight".to_owned(),
        }
    }
}

/// Only submissions that skip the preflight check are taken.
pub fn validate_send_transaction_params(params: &SendTransactionConfig) -> (result: Result<
    (),
    RequestError,
>)
    ensures
        result == if params.skip_preflight {
            Ok::<(), RequestError>(())
        } else {
            Err::<(), RequestError>(RequestError::PreflightNotSupported)
        },
{
    if !params.skip_preflight {
        return Err(RequestError::PreflightNotSupported);
    }
    Ok(())
}

/// Checks the options of a submission and says how its bytes are encoded.
pub fn select_encoding(params: &SendTransactionConfig) -> (result: Result<
    BinaryEncoding,
    RequestError,
>)
    ensures
        match result {
            Ok(binary) => params_rejection(*params) is None && binary_encoding_spec(
                effective_encoding(*params),
            ) == Some(binary),
            Err(error) => params_rejection(*params) == Some(error),
        },
{
    match validate_send_transaction_params(params) {
        Err(error) => {
            return Err(error);
        },
        Ok(()) => {},
    }
    let encoding = match params.encoding {
        Some(encoding) => encoding,
        None => TransactionEncoding::Base58,
    };
    match into_binary_encoding(encoding) {
        Some(binary) => Ok(binary),
        None => Err(RequestError::UnsupportedEncoding(encoding)),
    }
}

/// Passes on a parameter that was read, or reports which one could not be.
pub fn param<T, E>(parsed: Result<T, E>, thing: &str) -> (result: Result<T, InvalidParams>)
    ensures
        match parsed {
            Ok(value) => result == Ok::<T, InvalidParams>(value),
            Err(_) => result is Err && result->Err_0.message@ == "Invalid Request: Invalid "@
                + thing@ + " provided"@,
        },
{
    match parsed {
        Ok(value) => Ok(value),
        Err(_) => {
            let mut message = "Invalid Request: Invalid ".to_owned();
            message.append(thing);
            message.append(" provided");
            Err(InvalidParams { message })
        },
    }
}

/// The ingestion side of the relay.
#[derive(Debug)]
pub struct AtlasTxnSenderImpl {
    pub txn_sender: TxnSender,
}

impl AtlasTxnSenderImpl {
    /// The ingestion side of this relay.
    pub fn new(txn_sender: TxnSender) -> (server: Self)
        ensures
            server.txn_sender == txn_sender,
    {
        Self { txn_sender }
    }

    /// The liveness signal.
    pub fn health(&self) -> (status: String)
        ensures
            status@ == "ok"@,
    {
        "ok".to_owned()
    }

    /// Takes a decoded submission into the relay and answers with its
    /// signature, without waiting for anything to be sent. The submission is
    /// turned down, and nothing changes, if it asks for a preflight check,
    /// names an encoding that carries no bytes, has no signature, or has the
    /// signature of a record in flight.
    pub fn send_transaction(
        &mut self,
        txn: DecodedTransaction,
        params: SendTransactionConfig,
        now_monotonic: u64,
        now_wallclock: i64,
    ) -> (result: Result<String, RequestError>)
        requires
            old(self).txn_sender.store.wf(),
        ensures
            final(self).txn_sender.store.wf(),
            final(self).txn_sender.scheduler == old(self).txn_sender.scheduler,
            match result {
                Ok(signature) => {
                    let record = accepted_record(
                        txn,
                        params,
                        old(self).txn_sender.scheduler.settings().default_max_retries,
                        now_monotonic,
                        now_wallclock,
                    );
                    &&& rejection(params, txn.signatures@, old(self).txn_sender.store@) is None
                    &&& signature@ == record.signature
                    &&& final(self).txn_sender.store.entries() == old(
                        self,
                    ).txn_sender.store.entries().push(record)
                    &&& final(self).txn_sender.store@ == old(self).txn_sender.store@.insert(
                        record.signature,
                        record,
                    )
                },
                Err(error) => {
                    &&& rejection(params, txn.signatures@, old(self).txn_sender.store@) == Some(
                        error,
                    )
                    &&& final(self).txn_sender.store.entries() == old(
                        self,
                    ).txn_sender.store.entries()
                },
            },
    {
        match select_encoding(&params) {
            Err(error) => {
                return Err(error);
            },
            Ok(_) => {},
        }
        if txn.signatures.len() == 0 {
            return Err(RequestError::MalformedTransaction);
        }
        let signature = signature_string(&txn.signatures[0]);
        let max_retries = match params.max_retries {
            Some(cap) => cap,
            None => self.txn_sender.scheduler.config().default_max_retries,
        };
        let commitment = match params.preflight_commitment {
            Some(level) => level,
            None => default_commitment(),
        };
        let record = TransactionRecord::new(
            signature.clone(),
            txn.wire_transaction,
            txn.structured_view,
            now_monotonic,
            now_wallclock,
            max_retries,
            Some(commitment),
        );
        match self.txn_sender.send_transaction(record) {
            Ok(()) => Ok(signature),
            Err(_) => Err(RequestError::DuplicateSignature),
        }
    }
}

} // verus!
