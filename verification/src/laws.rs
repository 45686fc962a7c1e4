//! What holds of the relay as a whole, proved from the rules of the
//! scheduler and the model of the store.

use crate::record::{RecordView, TerminalCause};
use crate::rpc_server::{params_rejection, rejection, RequestError, SendTransactionConfig};
use crate::scheduler::{
    decide_spec, is_due, is_expired, outcome_spec, step_record, sweep_entries, Decision,
    Observation, OutcomeView, SchedulerConfig,
};
use crate::solana::signature_text;
use crate::store::{
    all_wf, as_map, distinct_signatures, has_signature, index_of, lemma_index_of,
    lemma_push_entry, lemma_remove_entry,
};
use vstd::prelude::*;

verus! {

/// One sweep as one record meets it: what is observed, and when.
pub ghost struct Round {
    pub observation: Observation,
    pub now: u64,
}

/// The record after it has met `rounds` in order; `None` once a round has
/// removed it.
pub open spec fn run_record(
    config: SchedulerConfig,
    record: RecordView,
    rounds: Seq<Round>,
) -> Option<RecordView>
    decreases rounds.len(),
{
    if rounds.len() == 0 {
        Some(record)
    } else {
        match run_record(config, record, rounds.drop_last()) {
            Some(earlier) => step_record(
                config,
                earlier,
                rounds.last().observation,
                rounds.last().now,
            ),
            None => None,
        }
    }
}

/// The time at which the record was last sent before round `k`, if every
/// earlier round resent it.
pub open spec fn sent_before(record: RecordView, rounds: Seq<Round>, k: int) -> u64 {
    if k == 0 {
        record.last_sent_monotonic
    } else {
        rounds[k - 1].now
    }
}

/// Round `k` finds the record unconfirmed, within its validity window, and
/// due for a resend.
pub open spec fn calls_for_resend(
    config: SchedulerConfig,
    record: RecordView,
    rounds: Seq<Round>,
    k: int,
) -> bool {
    &&& rounds[k].observation.confirmed_at is None
    &&& !is_expired(record, rounds[k].observation.current_slot, config.validity_window)
    &&& rounds[k].now >= sent_before(record, rounds, k)
    &&& rounds[k].now - sent_before(record, rounds, k) >= config.resend_interval
}

/// A single sweep step keeps a record within its retry cap, never lowers its
/// retry counter, raises it by at most one, and changes nothing else but the
/// time of the last send.
pub proof fn lemma_step_keeps_cap(
    config: SchedulerConfig,
    record: RecordView,
    observation: Observation,
    now: u64,
)
    requires
        record.wf(),
    ensures
        match step_record(config, record, observation, now) {
            Some(after) => {
                &&& after.wf()
                &&& after.same_identity(record)
                &&& record.retry_count <= after.retry_count <= record.retry_count + 1
            },
            None => true,
        },
{
}

/// However many sweeps a record meets, and whatever they observe, its retry
/// counter never exceeds its cap and never goes down, and its signature,
/// payload, submission times, cap and commitment stay as they were.
pub proof fn lemma_retry_count_within_cap(
    config: SchedulerConfig,
    record: RecordView,
    rounds: Seq<Round>,
)
    requires
        record.wf(),
    ensures
        match run_record(config, record, rounds) {
            Some(after) => {
                &&& after.wf()
                &&& after.same_identity(record)
                &&& record.retry_count <= after.retry_count <= record.retry_count + rounds.len()
            },
            None => true,
        },
    decreases rounds.len(),
{
    if rounds.len() > 0 {
        lemma_retry_count_within_cap(config, record, rounds.drop_last());
        match run_record(config, record, rounds.drop_last()) {
            Some(earlier) => {
                lemma_step_keeps_cap(
                    config,
                    earlier,
                    rounds.last().observation,
                    rounds.last().now,
                );
            },
            None => {},
        }
    }
}

/// A whole sweep keeps every surviving record within its retry cap.
pub proof fn lemma_sweep_keeps_caps(
    config: SchedulerConfig,
    entries: Seq<RecordView>,
    observations: Seq<Observation>,
    now: u64,
)
    requires
        all_wf(entries),
    ensures
        all_wf(sweep_entries(config, entries, observations, now)),
    decreases entries.len(),
{
    if entries.len() > 0 {
        assert(all_wf(entries.drop_last())) by {
            assert forall|i: int| 0 <= i < entries.drop_last().len() implies (
            #[trigger] entries.drop_last()[i]).wf() by {
                assert(entries[i].wf());
            }
        }
        lemma_sweep_keeps_caps(config, entries.drop_last(), observations.drop_last(), now);
        assert(entries[entries.len() - 1].wf());
        lemma_step_keeps_cap(config, entries.last(), observations.last(), now);
    }
}

/// A sweep brings no signature into the store: whatever is live after it was
/// live before it. A record that a sweep has removed is therefore met by no
/// later sweep, and is never sent again.
pub proof fn lemma_sweep_adds_no_signature(
    config: SchedulerConfig,
    entries: Seq<RecordView>,
    observations: Seq<Observation>,
    now: u64,
    signature: Seq<char>,
)
    requires
        has_signature(sweep_entries(config, entries, observations, now), signature),
    ensures
        has_signature(entries, signature),
    decreases entries.len(),
{
    let after = sweep_entries(config, entries, observations, now);
    if entries.len() > 0 {
        let earlier = sweep_entries(config, entries.drop_last(), observations.drop_last(), now);
        let at = index_of(after, signature);
        if at < earlier.len() {
            assert(earlier[at].signature == signature);
            lemma_sweep_adds_no_signature(
                config,
                entries.drop_last(),
                observations.drop_last(),
                now,
                signature,
            );
            let found = index_of(entries.drop_last(), signature);
            assert(entries[found].signature == signature);
        } else {
            lemma_step_keeps_signature(config, entries.last(), observations.last(), now);
            assert(entries[entries.len() - 1].signature == signature);
        }
    }
}

/// A sweep step leaves a surviving record's signature as it was.
proof fn lemma_step_keeps_signature(
    config: SchedulerConfig,
    record: RecordView,
    observation: Observation,
    now: u64,
)
    ensures
        match step_record(config, record, observation, now) {
            Some(after) => after.signature == record.signature,
            None => true,
        },
{
}

/// A sweep keeps signatures distinct.
pub proof fn lemma_sweep_keeps_distinct(
    config: SchedulerConfig,
    entries: Seq<RecordView>,
    observations: Seq<Observation>,
    now: u64,
)
    requires
        distinct_signatures(entries),
    ensures
        distinct_signatures(sweep_entries(config, entries, observations, now)),
    decreases entries.len(),
{
    if entries.len() > 0 {
        let shorter = entries.drop_last();
        let earlier = sweep_entries(config, shorter, observations.drop_last(), now);
        assert(distinct_signatures(shorter)) by {
            assert forall|i: int, j: int| 0 <= i < j < shorter.len() implies shorter[i].signature
                != shorter[j].signature by {
                assert(entries[i].signature != entries[j].signature);
            }
        }
        lemma_sweep_keeps_distinct(config, shorter, observations.drop_last(), now);
        lemma_last_is_not_earlier(config, entries, observations, now);
        match step_record(config, entries.last(), observations.last(), now) {
            Some(after) => {
                lemma_push_entry(earlier, after);
            },
            None => {},
        }
    }
}

/// With distinct signatures, the signature of the last entry is not among
/// the survivors of the entries before it.
proof fn lemma_last_is_not_earlier(
    config: SchedulerConfig,
    entries: Seq<RecordView>,
    observations: Seq<Observation>,
    now: u64,
)
    requires
        distinct_signatures(entries),
        entries.len() > 0,
    ensures
        !has_signature(
            sweep_entries(config, entries.drop_last(), observations.drop_last(), now),
            entries.last().signature,
        ),
{
    let shorter = entries.drop_last();
    let earlier = sweep_entries(config, shorter, observations.drop_last(), now);
    if has_signature(earlier, entries.last().signature) {
        lemma_sweep_adds_no_signature(
            config,
            shorter,
            observations.drop_last(),
            now,
            entries.last().signature,
        );
        let found = index_of(shorter, entries.last().signature);
        assert(entries[found].signature != entries[entries.len() - 1].signature);
    }
}

/// What became of one record in a sweep, read off the store as a map: the
/// record is there as its own step left it, or it is gone.
pub open spec fn fate_in(
    live: Map<Seq<char>, RecordView>,
    signature: Seq<char>,
    stepped: Option<RecordView>,
) -> bool {
    match stepped {
        Some(after) => live.contains_key(signature) && live[signature] == after,
        None => !live.contains_key(signature),
    }
}

/// Records are independent: what a sweep does to a record depends on that
/// record and on what was observed about it, and on no other record. Each
/// record that was live before the sweep is found afterwards exactly as its
/// own step left it.
pub proof fn lemma_sweep_is_per_record(
    config: SchedulerConfig,
    entries: Seq<RecordView>,
    observations: Seq<Observation>,
    now: u64,
    i: int,
)
    requires
        distinct_signatures(entries),
        observations.len() == entries.len(),
        0 <= i < entries.len(),
    ensures
        fate_in(
            as_map(sweep_entries(config, entries, observations, now)),
            entries[i].signature,
            step_record(config, entries[i], observations[i], now),
        ),
    decreases entries.len(),
{
    let shorter = entries.drop_last();
    let earlier = sweep_entries(config, shorter, observations.drop_last(), now);
    let last = entries.len() - 1;
    assert(distinct_signatures(shorter)) by {
        assert forall|a: int, b: int| 0 <= a < b < shorter.len() implies shorter[a].signature
            != shorter[b].signature by {
            assert(entries[a].signature != entries[b].signature);
        }
    }
    lemma_sweep_keeps_distinct(config, shorter, observations.drop_last(), now);
    lemma_last_is_not_earlier(config, entries, observations, now);
    lemma_step_keeps_signature(config, entries.last(), observations.last(), now);
    if i < last {
        lemma_sweep_is_per_record(config, shorter, observations.drop_last(), now, i);
        assert(entries[i].signature != entries[last].signature);
    }
    match step_record(config, entries.last(), observations.last(), now) {
        Some(after) => {
            lemma_push_entry(earlier, after);
        },
        None => {},
    }
}

/// Confirmation takes precedence: a record observed as confirmed is removed
/// with cause `Confirmed` and is not sent again, whether or not a resend is
/// due, its blockhash has aged out, or its retries are used up.
pub proof fn lemma_confirmation_takes_precedence(
    config: SchedulerConfig,
    record: RecordView,
    observation: Observation,
    now: u64,
)
    requires
        observation.confirmed_at is Some,
    ensures
        decide_spec(config, record, observation, now) == Decision::Terminate(
            TerminalCause::Confirmed,
        ),
        step_record(config, record, observation, now) is None,
        outcome_spec(config, record, observation, now) matches OutcomeView::Terminated(event)
            && event.cause == TerminalCause::Confirmed && event.confirmed_at
            == observation.confirmed_at && event.retry_count == record.retry_count,
{
}

/// An unconfirmed record that is due and whose blockhash lies more than the
/// validity window behind the current slot is removed with cause `Expired`,
/// and nothing is forwarded for it.
pub proof fn lemma_expired_is_removed(
    config: SchedulerConfig,
    record: RecordView,
    observation: Observation,
    now: u64,
)
    requires
        observation.confirmed_at is None,
        is_due(record, now, config.resend_interval),
        is_expired(record, observation.current_slot, config.validity_window),
    ensures
        decide_spec(config, record, observation, now) == Decision::Terminate(
            TerminalCause::Expired,
        ),
        step_record(config, record, observation, now) is None,
        outcome_spec(config, record, observation, now) matches OutcomeView::Terminated(event)
            && event.cause == TerminalCause::Expired && event.retry_count == record.retry_count,
{
}

/// An unknown slot never expires a record.
pub proof fn lemma_unknown_slot_never_expires(
    config: SchedulerConfig,
    record: RecordView,
    observation: Observation,
    now: u64,
)
    requires
        observation.current_slot is None,
    ensures
        decide_spec(config, record, observation, now) != Decision::Terminate(
            TerminalCause::Expired,
        ),
{
}

/// A sweep that learns nothing, because neither query was answered, neither
/// confirms nor expires a record: the record is left alone until it is due,
/// and then goes by its retry counter alone.
pub proof fn lemma_no_answer_is_inconclusive(
    config: SchedulerConfig,
    record: RecordView,
    now: u64,
)
    ensures
        decide_spec(config, record, Observation { confirmed_at: None, current_slot: None }, now)
            == if !is_due(record, now, config.resend_interval) {
            Decision::NotDue
        } else if record.retry_count >= record.max_retries {
            Decision::Terminate(TerminalCause::RetriesExhausted)
        } else {
            Decision::Resend
        },
{
}

/// While a record is live, a submission with its signature is turned down as
/// a duplicate; once the record has been removed, the same submission is
/// accepted.
pub proof fn lemma_signature_free_after_removal(
    params: SendTransactionConfig,
    signatures: Seq<[u8; 64]>,
    entries: Seq<RecordView>,
    at: int,
)
    requires
        params_rejection(params) is None,
        signatures.len() > 0,
        distinct_signatures(entries),
        0 <= at < entries.len(),
        entries[at].signature == signature_text(signatures[0]@),
    ensures
        rejection(params, signatures, as_map(entries)) == Some(RequestError::DuplicateSignature),
        rejection(params, signatures, as_map(entries.remove(at))) is None,
{
    lemma_index_of(entries, at);
    lemma_remove_entry(entries, at);
}

/// Resends alone never remove a record. A record that meets `n` sweeps, each
/// of which finds it unconfirmed, unexpired and due, with `n` no more than
/// the retries it has left, is live afterwards with its retry counter raised
/// by exactly `n`. Whether any of the attempts was delivered plays no part.
pub proof fn lemma_resends_keep_record_live(
    config: SchedulerConfig,
    record: RecordView,
    rounds: Seq<Round>,
)
    requires
        record.wf(),
        record.retry_count + rounds.len() <= record.max_retries,
        forall|k: int| 0 <= k < rounds.len() ==> calls_for_resend(config, record, rounds, k),
    ensures
        run_record(config, record, rounds) matches Some(after) && {
            &&& after.retry_count == record.retry_count + rounds.len()
            &&& after.same_identity(record)
            &&& after.last_sent_monotonic == sent_before(record, rounds, rounds.len() as int)
        },
    decreases rounds.len(),
{
    if rounds.len() > 0 {
        let shorter = rounds.drop_last();
        assert forall|k: int| 0 <= k < shorter.len() implies calls_for_resend(
            config,
            record,
            shorter,
            k,
        ) by {
            assert(calls_for_resend(config, record, rounds, k));
        }
        lemma_resends_keep_record_live(config, record, shorter);
        let last = rounds.len() - 1;
        assert(calls_for_resend(config, record, rounds, last));
        let earlier = run_record(config, record, shorter)->0;
        assert(earlier.last_sent_monotonic == sent_before(record, rounds, last));
        assert(decide_spec(config, earlier, rounds.last().observation, rounds.last().now)
            == Decision::Resend);
    }
}

/// Once its retries are used up, an unconfirmed, unexpired record that is
/// due is removed with cause `RetriesExhausted`, and nothing is forwarded.
pub proof fn lemma_exhausted_is_removed(
    config: SchedulerConfig,
    record: RecordView,
    observation: Observation,
    now: u64,
)
    requires
        observation.confirmed_at is None,
        is_due(record, now, config.resend_interval),
        !is_expired(record, observation.current_slot, config.validity_window),
        record.retry_count >= record.max_retries,
    ensures
        decide_spec(config, record, observation, now) == Decision::Terminate(
            TerminalCause::RetriesExhausted,
        ),
        step_record(config, record, observation, now) is None,
{
}

} // verus!
