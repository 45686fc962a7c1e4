//! The unit of in-flight state: one accepted transaction and its retry bookkeeping.

use vstd::prelude::*;

verus! {

/// How settled a block must be before a transaction in it counts as confirmed.
#[derive(Clone, Copy, Debug, PartialEq, Eq, Structural)]
pub enum CommitmentLevel {
    Processed,
    Confirmed,
    Finalized,
}

/// The commitment a confirmation query is evaluated against.
#[derive(Clone, Copy, Debug, PartialEq, Eq, Structural)]
pub struct CommitmentConfig {
    pub commitment: CommitmentLevel,
}

/// Why a record left the store. Exactly one cause applies to each removal.
#[derive(Clone, Copy, Debug, PartialEq, Eq, Structural)]
pub enum TerminalCause {
    Confirmed,
    Expired,
    RetriesExhausted,
}

/// What the relay reads from the decoded transaction: the blockhash it
/// references and the slot at which that blockhash was produced.
#[derive(Clone, Copy, Debug)]
pub struct StructuredView {
    pub recent_blockhash: [u8; 32],
    pub blockhash_slot: u64,
}

/// Mathematical model of a [`TransactionRecord`].
pub ghost struct RecordView {
    pub signature: Seq<char>,
    pub wire_payload: Seq<u8>,
    pub structured_view: StructuredView,
    pub submitted_monotonic: u64,
    pub submitted_wallclock: i64,
    pub last_sent_monotonic: u64,
    pub retry_count: nat,
    pub max_retries: nat,
    pub requested_commitment: Option<CommitmentLevel>,
}

impl RecordView {
    /// The retry counter stays within its cap.
    pub open spec fn wf(self) -> bool {
        self.retry_count <= self.max_retries
    }

    /// The record after one more resend attempt made at `now`.
    pub open spec fn resent(self, now: u64) -> RecordView {
        RecordView { retry_count: self.retry_count + 1, last_sent_monotonic: now, ..self }
    }

    /// Everything that never changes during a record's life is the same in both.
    pub open spec fn same_identity(self, other: RecordView) -> bool {
        &&& self.signature == other.signature
        &&& self.wire_payload == other.wire_payload
        &&& self.structured_view == other.structured_view
        &&& self.submitted_monotonic == other.submitted_monotonic
        &&& self.submitted_wallclock == other.submitted_wallclock
        &&& self.max_retries == other.max_retries
        &&& self.requested_commitment == other.requested_commitment
    }
}

/// One in-flight transaction.
///
/// Signature, payload, structured view, submission times, retry cap and
/// commitment are fixed at creation; only the retry counter and the time of
/// the last send change afterwards.
#[derive(Debug)]
pub struct TransactionRecord {
    signature: String,
    wire_payload: Vec<u8>,
    structured_view: StructuredView,
    submitted_monotonic: u64,
    submitted_wallclock: i64,
    last_sent_monotonic: u64,
    retry_count: usize,
    max_retries: usize,
    requested_commitment: Option<CommitmentLevel>,
}

impl View for TransactionRecord {
    type V = RecordView;

    closed spec fn view(&self) -> RecordView {
        RecordView {
            signature: self.signature@,
            wire_payload: self.wire_payload@,
            structured_view: self.structured_view,
            submitted_monotonic: self.submitted_monotonic,
            submitted_wallclock: self.submitted_wallclock,
            last_sent_monotonic: self.last_sent_monotonic,
            retry_count: self.retry_count as nat,
            max_retries: self.max_retries as nat,
            requested_commitment: self.requested_commitment,
        }
    }
}

impl Clone for TransactionRecord {
    fn clone(&self) -> (copy: Self)
        ensures
            copy@ == self@,
    {
        TransactionRecord {
            signature: self.signature.clone(),
            wire_payload: self.wire_payload.clone(),
            structured_view: self.structured_view,
            submitted_monotonic: self.submitted_monotonic,
            submitted_wallclock: self.submitted_wallclock,
            last_sent_monotonic: self.last_sent_monotonic,
            retry_count: self.retry_count,
            max_retries: self.max_retries,
            requested_commitment: self.requested_commitment,
        }
    }
}

impl TransactionRecord {
    /// Well-formedness: the retry counter stays within its cap.
    pub open spec fn wf(&self) -> bool {
        self@.wf()
    }

    /// Both counters of a record fit the machine word they are kept in.
    pub proof fn lemma_counts_fit(&self)
        ensures
            self@.retry_count <= usize::MAX,
            self@.max_retries <= usize::MAX,
    {
    }

    /// A fresh record: no resend has been made, and the resend clock starts at
    /// the time of submission.
    pub fn new(
        signature: String,
        wire_payload: Vec<u8>,
        structured_view: StructuredView,
        submitted_monotonic: u64,
        submitted_wallclock: i64,
        max_retries: usize,
        requested_commitment: Option<CommitmentLevel>,
    ) -> (record: Self)
        ensures
            record.wf(),
            record@ == (RecordView {
                signature: signature@,
                wire_payload: wire_payload@,
                structured_view,
                submitted_monotonic,
                submitted_wallclock,
                last_sent_monotonic: submitted_monotonic,
                retry_count: 0,
                max_retries: max_retries as nat,
                requested_commitment,
            }),
    {
        TransactionRecord {
            signature,
            wire_payload,
            structured_view,
            submitted_monotonic,
            submitted_wallclock,
            last_sent_monotonic: submitted_monotonic,
            retry_count: 0,
            max_retries,
            requested_commitment,
        }
    }

    /// The record's key in the store.
    pub fn signature(&self) -> (s: &String)
        ensures
            s@ == self@.signature,
    {
        &self.signature
    }

    /// The bytes that are forwarded, unchanged, on every attempt.
    pub fn wire_payload(&self) -> (p: &Vec<u8>)
        ensures
            p@ == self@.wire_payload,
    {
        &self.wire_payload
    }

    /// What was read from the decoded transaction.
    pub fn structured_view(&self) -> (v: StructuredView)
        ensures
            v == self@.structured_view,
    {
        self.structured_view
    }

    /// When the record was accepted, on the monotonic clock.
    pub fn submitted_monotonic(&self) -> (t: u64)
        ensures
            t == self@.submitted_monotonic,
    {
        self.submitted_monotonic
    }

    /// When the record was accepted, on the wall clock.
    pub fn submitted_wallclock(&self) -> (t: i64)
        ensures
            t == self@.submitted_wallclock,
    {
        self.submitted_wallclock
    }

    /// When the record was last sent, or accepted if it was never resent.
    pub fn last_sent_monotonic(&self) -> (t: u64)
        ensures
            t == self@.last_sent_monotonic,
    {
        self.last_sent_monotonic
    }

    /// The number of resend attempts made so far.
    pub fn retry_count(&self) -> (n: usize)
        ensures
            n == self@.retry_count,
    {
        self.retry_count
    }

    /// The number of resend attempts allowed.
    pub fn max_retries(&self) -> (n: usize)
        ensures
            n == self@.max_retries,
    {
        self.max_retries
    }

    /// The commitment at which confirmation is asked for; `None` for the
    /// oracle's default.
    pub fn requested_commitment(&self) -> (c: Option<CommitmentLevel>)
        ensures
            c == self@.requested_commitment,
    {
        self.requested_commitment
    }

    /// Books one resend attempt made at `now`.
    pub(crate) fn note_resend(&mut self, now: u64)
        requires
            old(self).wf(),
            old(self)@.retry_count < old(self)@.max_retries,
        ensures
            final(self).wf(),
            final(self)@ == old(self)@.resent(now),
    {
        self.retry_count = self.retry_count + 1;
        self.last_sent_monotonic = now;
    }
}

} // verus!
