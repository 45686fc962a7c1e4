//! The retry scheduler: what happens to one live record in one sweep.
//!
//! A sweep looks at every live record in turn. For each it learns whether the
//! transaction is confirmed and, where that matters, the current slot, and
//! then either removes the record, leaves it alone, or books a resend. The
//! rules are the spec functions of this module; the executable functions are
//! proved to follow them.

use crate::forwarder::Forwarder;
use crate::record::{CommitmentConfig, RecordView, TerminalCause, TransactionRecord};
use crate::solana_rpc::{SolanaRpc, UnixTimestamp};
use crate::store::{index_of, lemma_index_of, views, TransactionStore};
use vstd::prelude::*;

verus! {

/// The fixed settings of the scheduler, set once at start.
#[derive(Clone, Copy, Debug)]
pub struct SchedulerConfig {
    /// Least time between two sends of one record, in units of the monotonic clock.
    pub resend_interval: u64,
    /// Number of slots for which a blockhash stays valid.
    pub validity_window: u64,
    /// Retry cap of a submission that names none.
    pub default_max_retries: usize,
    /// Time between two sweeps, in units of the monotonic clock.
    pub tick_interval: u64,
}

/// What was learned about one record during a sweep.
#[derive(Clone, Copy, Debug)]
pub struct Observation {
    /// The wall-clock time of confirmation, if the transaction is confirmed.
    pub confirmed_at: Option<i64>,
    /// The current slot, if it is known.
    pub current_slot: Option<u64>,
}

/// A confirmation or slot query failed or timed out.
#[derive(Clone, Copy, Debug, PartialEq, Eq, Structural)]
pub struct OracleUnavailable;

impl Observation {
    /// The observation made of two answers. A query that failed is
    /// inconclusive for this sweep: it counts as "not confirmed", or as
    /// "slot unknown", and as nothing more.
    pub fn from_answers(
        confirmation: Result<Option<UnixTimestamp>, OracleUnavailable>,
        slot: Result<Option<u64>, OracleUnavailable>,
    ) -> (observation: Observation)
        ensures
            observation.confirmed_at == match confirmation {
                Ok(answer) => answer,
                Err(_) => None,
            },
            observation.current_slot == match slot {
                Ok(answer) => answer,
                Err(_) => None,
            },
    {
        Observation {
            confirmed_at: match confirmation {
                Ok(answer) => answer,
                Err(_) => None,
            },
            current_slot: match slot {
                Ok(answer) => answer,
                Err(_) => None,
            },
        }
    }
}

/// What a sweep does with one record.
#[derive(Clone, Copy, Debug, PartialEq, Eq, Structural)]
pub enum Decision {
    /// Remove the record, for this cause.
    Terminate(TerminalCause),
    /// Too early for another send: leave the record as it is.
    NotDue,
    /// Send the payload again and count the attempt.
    Resend,
}

/// The resend interval has passed since the record was last sent (or, before
/// its first resend, since it was submitted).
pub open spec fn is_due(record: RecordView, now: u64, resend_interval: u64) -> bool {
    now >= record.last_sent_monotonic && now - record.last_sent_monotonic >= resend_interval
}

/// The record's blockhash is more than `validity_window` slots behind the
/// current slot. An unknown slot is no evidence of age.
pub open spec fn is_expired(
    record: RecordView,
    current_slot: Option<u64>,
    validity_window: u64,
) -> bool {
    match current_slot {
        Some(slot) => slot - record.structured_view.blockhash_slot > validity_window,
        None => false,
    }
}

/// The rule of the sweep, in order of precedence: confirmation first, then
/// the resend timer, then expiry, then the retry cap.
pub open spec fn decide_spec(
    config: SchedulerConfig,
    record: RecordView,
    observation: Observation,
    now: u64,
) -> Decision {
    if observation.confirmed_at is Some {
        Decision::Terminate(TerminalCause::Confirmed)
    } else if !is_due(record, now, config.resend_interval) {
        Decision::NotDue
    } else if is_expired(record, observation.current_slot, config.validity_window) {
        Decision::Terminate(TerminalCause::Expired)
    } else if record.retry_count >= record.max_retries {
        Decision::Terminate(TerminalCause::RetriesExhausted)
    } else {
        Decision::Resend
    }
}

/// The record after the sweep has dealt with it: `None` where it was removed.
pub open spec fn step_record(
    config: SchedulerConfig,
    record: RecordView,
    observation: Observation,
    now: u64,
) -> Option<RecordView> {
    match decide_spec(config, record, observation, now) {
        Decision::Terminate(_) => None,
        Decision::NotDue => Some(record),
        Decision::Resend => Some(record.resent(now)),
    }
}

/// Time from submission to `now`; zero if the clock reads earlier than the
/// submission.
pub open spec fn latency_spec(record: RecordView, now: u64) -> u64 {
    if now >= record.submitted_monotonic {
        (now - record.submitted_monotonic) as u64
    } else {
        0
    }
}

/// What is reported when a record leaves the store.
#[derive(Debug)]
pub struct TerminalEvent {
    pub signature: String,
    pub cause: TerminalCause,
    /// The number of resend attempts made for the record.
    pub retry_count: usize,
    /// Time from submission to removal, on the monotonic clock.
    pub latency: u64,
    /// The wall-clock time of confirmation, where the cause is confirmation.
    pub confirmed_at: Option<i64>,
}

/// Mathematical model of a [`TerminalEvent`].
pub ghost struct TerminalEventView {
    pub signature: Seq<char>,
    pub cause: TerminalCause,
    pub retry_count: nat,
    pub latency: u64,
    pub confirmed_at: Option<i64>,
}

impl View for TerminalEvent {
    type V = TerminalEventView;

    open spec fn view(&self) -> TerminalEventView {
        TerminalEventView {
            signature: self.signature@,
            cause: self.cause,
            retry_count: self.retry_count as nat,
            latency: self.latency,
            confirmed_at: self.confirmed_at,
        }
    }
}

/// The event that reports the removal of `record` for `cause`.
pub open spec fn terminal_event_spec(
    record: RecordView,
    cause: TerminalCause,
    observation: Observation,
    now: u64,
) -> TerminalEventView {
    TerminalEventView {
        signature: record.signature,
        cause,
        retry_count: record.retry_count,
        latency: latency_spec(record, now),
        confirmed_at: if cause == TerminalCause::Confirmed {
            observation.confirmed_at
        } else {
            None
        },
    }
}

/// What one sweep did with one signature.
#[derive(Debug)]
pub enum RecordOutcome {
    /// No live record has the signature; nothing was done.
    Absent,
    /// The record stays, and it is not yet time to send it again.
    NotDue,
    /// The record stays; this payload is to be forwarded once more. `attempt`
    /// is the record's retry counter after this attempt.
    Resend { wire_payload: Vec<u8>, attempt: usize },
    /// The record was removed.
    Terminated(TerminalEvent),
}

/// Mathematical model of a [`RecordOutcome`].
pub ghost enum OutcomeView {
    Absent,
    NotDue,
    Resend { wire_payload: Seq<u8>, attempt: nat },
    Terminated(TerminalEventView),
}

impl View for RecordOutcome {
    type V = OutcomeView;

    open spec fn view(&self) -> OutcomeView {
        match self {
            RecordOutcome::Absent => OutcomeView::Absent,
            RecordOutcome::NotDue => OutcomeView::NotDue,
            RecordOutcome::Resend { wire_payload, attempt } => OutcomeView::Resend {
                wire_payload: wire_payload@,
                attempt: *attempt as nat,
            },
            RecordOutcome::Terminated(event) => OutcomeView::Terminated(event@),
        }
    }
}

/// The outcome that the rule prescribes for a live record.
pub open spec fn outcome_spec(
    config: SchedulerConfig,
    record: RecordView,
    observation: Observation,
    now: u64,
) -> OutcomeView {
    match decide_spec(config, record, observation, now) {
        Decision::Terminate(cause) => OutcomeView::Terminated(
            terminal_event_spec(record, cause, observation, now),
        ),
        Decision::NotDue => OutcomeView::NotDue,
        Decision::Resend => OutcomeView::Resend {
            wire_payload: record.wire_payload,
            attempt: record.retry_count + 1,
        },
    }
}

/// The entries after the entry at `at` has been replaced by `stepped`, or
/// taken out where `stepped` is `None`.
pub open spec fn replace_at(
    entries: Seq<RecordView>,
    at: int,
    stepped: Option<RecordView>,
) -> Seq<RecordView> {
    match stepped {
        Some(record) => entries.update(at, record),
        None => entries.remove(at),
    }
}

/// The entries after a whole sweep in which the entry at position `i` met
/// `observations[i]`: survivors keep their order.
pub open spec fn sweep_entries(
    config: SchedulerConfig,
    entries: Seq<RecordView>,
    observations: Seq<Observation>,
    now: u64,
) -> Seq<RecordView>
    recommends
        observations.len() == entries.len(),
    decreases entries.len(),
{
    if entries.len() == 0 {
        Seq::empty()
    } else {
        let earlier = sweep_entries(config, entries.drop_last(), observations.drop_last(), now);
        match step_record(config, entries.last(), observations.last(), now) {
            Some(record) => earlier.push(record),
            None => earlier,
        }
    }
}

/// Which confirmation query is made for a record: at the commitment it asks
/// for, or at the oracle's default where it names none.
#[derive(Clone, Copy, Debug, PartialEq, Eq, Structural)]
pub enum ConfirmationQuery {
    Default,
    WithCommitment(CommitmentConfig),
}

/// The confirmation query that a record calls for.
pub open spec fn confirmation_query_spec(record: RecordView) -> ConfirmationQuery {
    match record.requested_commitment {
        Some(commitment) => ConfirmationQuery::WithCommitment(CommitmentConfig { commitment }),
        None => ConfirmationQuery::Default,
    }
}

/// What a sweep did with one record of its snapshot.
#[derive(Debug)]
pub struct SweepReport {
    pub signature: String,
    /// The confirmation query that was made for the record.
    pub query: ConfirmationQuery,
    /// What the oracle and the slot tracker answered. The slot is asked for
    /// only where the record is unconfirmed and due.
    pub observation: Observation,
    pub outcome: RecordOutcome,
    /// Whether the forwarder took the payload, where one was forwarded.
    pub delivered: Option<bool>,
}

/// The observations of a sequence of reports, in the same order.
pub open spec fn observations_of(reports: Seq<SweepReport>) -> Seq<Observation> {
    reports.map_values(|r: SweepReport| r.observation)
}

/// The report at a position says what the rule prescribes for the record
/// that stood at this position before the sweep.
pub open spec fn report_matches(
    config: SchedulerConfig,
    record: RecordView,
    report: SweepReport,
    now: u64,
) -> bool {
    &&& report.signature@ == record.signature
    &&& report.query == confirmation_query_spec(record)
    &&& report.observation.current_slot is Some ==> report.observation.confirmed_at is None
        && is_due(record, now, config.resend_interval)
    &&& report.outcome@ == outcome_spec(config, record, report.observation, now)
    &&& report.delivered is Some <==> decide_spec(config, record, report.observation, now)
        == Decision::Resend
}

/// One more record dealt with: the store's entries are again the swept
/// prefix followed by the untouched rest.
proof fn lemma_sweep_step(
    config: SchedulerConfig,
    before: Seq<RecordView>,
    observations: Seq<Observation>,
    i: int,
    observation: Observation,
    now: u64,
)
    requires
        0 <= i < before.len(),
        observations.len() == i,
    ensures
        ({
            let swept = sweep_entries(config, before.take(i), observations, now);
            let stepped = step_record(config, before[i], observation, now);
            let grown = sweep_entries(config, before.take(i + 1), observations.push(observation), now);
            &&& grown == match stepped {
                Some(record) => swept.push(record),
                None => swept,
            }
            &&& (swept + before.skip(i))[swept.len() as int] == before[i]
            &&& replace_at(swept + before.skip(i), swept.len() as int, stepped) == grown
                + before.skip(i + 1)
        }),
{
    let swept = sweep_entries(config, before.take(i), observations, now);
    let stepped = step_record(config, before[i], observation, now);
    assert(before.take(i + 1).drop_last() =~= before.take(i));
    assert(observations.push(observation).drop_last() =~= observations);
    assert(before.take(i + 1).last() == before[i]);
    let grown = sweep_entries(config, before.take(i + 1), observations.push(observation), now);
    let current = swept + before.skip(i);
    match stepped {
        Some(record) => {
            assert(current.update(swept.len() as int, record) =~= swept.push(record)
                + before.skip(i + 1));
        },
        None => {
            assert(current.remove(swept.len() as int) =~= swept + before.skip(i + 1));
        },
    }
}

/// The per-record rules of the sweep, with the settings they depend on.
#[derive(Clone, Copy, Debug)]
pub struct RetryScheduler {
    config: SchedulerConfig,
}

impl RetryScheduler {
    /// The settings this scheduler was made with.
    pub closed spec fn settings(&self) -> SchedulerConfig {
        self.config
    }

    /// A scheduler with these settings.
    pub fn new(config: SchedulerConfig) -> (scheduler: Self)
        ensures
            scheduler.settings() == config,
    {
        RetryScheduler { config }
    }

    /// The settings, as given to `new`.
    pub fn config(&self) -> (config: SchedulerConfig)
        ensures
            config == self.settings(),
    {
        self.config
    }

    /// Whether the resend interval has passed for `record` at time `now`.
    pub fn due(&self, record: &TransactionRecord, now: u64) -> (due: bool)
        ensures
            due == is_due(record@, now, self.settings().resend_interval),
    {
        let last = record.last_sent_monotonic();
        now >= last && now - last >= self.config.resend_interval
    }

    /// Whether `record`'s blockhash has aged out at `current_slot`.
    pub fn expired(&self, record: &TransactionRecord, current_slot: Option<u64>) -> (expired: bool)
        ensures
            expired == is_expired(record@, current_slot, self.settings().validity_window),
    {
        match current_slot {
            Some(slot) => {
                let reference = record.structured_view().blockhash_slot;
                slot > reference && slot - reference > self.config.validity_window
            },
            None => false,
        }
    }

    /// Applies the rule of the sweep to one record, without changing anything.
    pub fn decide(&self, record: &TransactionRecord, observation: &Observation, now: u64) -> (decision:
        Decision)
        ensures
            decision == decide_spec(self.settings(), record@, *observation, now),
    {
        if observation.confirmed_at.is_some() {
            Decision::Terminate(TerminalCause::Confirmed)
        } else if !self.due(record, now) {
            Decision::NotDue
        } else if self.expired(record, observation.current_slot) {
            Decision::Terminate(TerminalCause::Expired)
        } else if record.retry_count() >= record.max_retries() {
            Decision::Terminate(TerminalCause::RetriesExhausted)
        } else {
            Decision::Resend
        }
    }

    /// Deals with the record that has `signature`, given what was observed
    /// about it: removes it, leaves it, or books a resend, as the rule says.
    /// A signature that is no longer live is left alone, so a stale snapshot
    /// entry does no harm.
    pub fn process_record(
        &self,
        store: &mut TransactionStore,
        signature: &String,
        observation: &Observation,
        now: u64,
    ) -> (outcome: RecordOutcome)
        requires
            old(store).wf(),
        ensures
            final(store).wf(),
            !old(store)@.contains_key(signature@) ==> {
                &&& outcome@ == OutcomeView::Absent
                &&& final(store).entries() == old(store).entries()
            },
            old(store)@.contains_key(signature@) ==> {
                let record = old(store)@[signature@];
                let stepped = step_record(self.settings(), record, *observation, now);
                &&& outcome@ == outcome_spec(self.settings(), record, *observation, now)
                &&& final(store).entries() == replace_at(
                    old(store).entries(),
                    index_of(old(store).entries(), signature@),
                    stepped,
                )
                &&& final(store)@ == match stepped {
                    Some(after) => old(store)@.insert(signature@, after),
                    None => old(store)@.remove(signature@),
                }
            },
    {
        let at = match store.position(signature) {
            Some(at) => at,
            None => {
                return RecordOutcome::Absent;
            },
        };
        proof {
            lemma_index_of(store.entries(), at as int);
        }
        let record = store.record_at(at);
        match self.decide(record, observation, now) {
            Decision::NotDue => {
                proof {
                    assert(store.entries().update(at as int, store.entries()[at as int])
                        =~= store.entries());
                    assert(store@.insert(signature@, store@[signature@]) =~= store@);
                }
                RecordOutcome::NotDue
            },
            Decision::Resend => {
                proof {
                    record.lemma_counts_fit();
                }
                let attempt = record.retry_count() + 1;
                let wire_payload = record.wire_payload().clone();
                store.note_resend_at(at, now);
                RecordOutcome::Resend { wire_payload, attempt }
            },
            Decision::Terminate(cause) => {
                let submitted = record.submitted_monotonic();
                let latency = if now >= submitted {
                    now - submitted
                } else {
                    0
                };
                let confirmed_at = match cause {
                    TerminalCause::Confirmed => observation.confirmed_at,
                    _ => None,
                };
                let removed = store.remove_at(at);
                RecordOutcome::Terminated(
                    TerminalEvent {
                        signature: removed.signature().clone(),
                        cause,
                        retry_count: removed.retry_count(),
                        latency,
                        confirmed_at,
                    },
                )
            },
        }
    }

    /// The confirmation query to make for `record`.
    pub fn confirmation_query(record: &TransactionRecord) -> (query: ConfirmationQuery)
        ensures
            query == confirmation_query_spec(record@),
    {
        match record.requested_commitment() {
            Some(commitment) => ConfirmationQuery::WithCommitment(CommitmentConfig { commitment }),
            None => ConfirmationQuery::Default,
        }
    }

    /// Whether the current slot matters for `record` at time `now`, given the
    /// oracle's answer: only where the record is unconfirmed and due.
    pub fn needs_slot(
        &self,
        record: &TransactionRecord,
        confirmed_at: Option<UnixTimestamp>,
        now: u64,
    ) -> (needed: bool)
        ensures
            needed == (confirmed_at is None && is_due(
                record@,
                now,
                self.settings().resend_interval,
            )),
    {
        confirmed_at.is_none() && self.due(record, now)
    }

    /// Asks the chain about one record: first whether it is confirmed, and,
    /// only where it is not and a resend is due, for the current slot.
    pub fn observe<R: SolanaRpc>(&self, rpc: &R, record: &TransactionRecord, now: u64) -> (answer: (
        ConfirmationQuery,
        Observation,
    ))
        ensures
            answer.0 == confirmation_query_spec(record@),
            answer.1.current_slot is Some ==> answer.1.confirmed_at is None && is_due(
                record@,
                now,
                self.settings().resend_interval,
            ),
    {
        let query = Self::confirmation_query(record);
        let confirmed_at = match query {
            ConfirmationQuery::WithCommitment(commitment_config) => {
                rpc.confirm_transaction_with_commitment(
                    record.signature().clone(),
                    commitment_config,
                )
            },
            ConfirmationQuery::Default => rpc.confirm_transaction(record.signature().clone()),
        };
        let current_slot = if self.needs_slot(record, confirmed_at, now) {
            rpc.get_next_slot()
        } else {
            None
        };
        (query, Observation { confirmed_at, current_slot })
    }

    /// One sweep: every record that is live at the start is observed and
    /// dealt with once, oldest first, and the payload of each record that is
    /// due for a resend is handed to the forwarder. Whether the forwarder
    /// succeeds is reported and changes nothing else.
    pub fn sweep<R: SolanaRpc, F: Forwarder>(
        &self,
        store: &mut TransactionStore,
        rpc: &R,
        forwarder: &F,
        now: u64,
    ) -> (reports: Vec<SweepReport>)
        requires
            old(store).wf(),
        ensures
            final(store).wf(),
            reports.len() == old(store).entries().len(),
            forall|i: int|
                0 <= i < reports.len() ==> report_matches(
                    self.settings(),
                    old(store).entries()[i],
                    #[trigger] reports[i],
                    now,
                ),
            final(store).entries() == sweep_entries(
                self.settings(),
                old(store).entries(),
                observations_of(reports@),
                now,
            ),
    {
        let ghost before = store.entries();
        let snapshot = store.snapshot();
        let mut reports: Vec<SweepReport> = Vec::new();
        let mut i: usize = 0;
        assert(before.take(0) =~= Seq::<RecordView>::empty());
        assert(before.skip(0) =~= before);
        assert(observations_of(reports@) =~= Seq::<Observation>::empty());
        assert(Seq::<RecordView>::empty() + before =~= before);
        while i < snapshot.len()
            invariant
                store.wf(),
                views(snapshot@) == before,
                i <= snapshot.len(),
                reports.len() == i,
                forall|j: int|
                    0 <= j < i ==> report_matches(
                        self.settings(),
                        before[j],
                        #[trigger] reports[j],
                        now,
                    ),
                store.entries() == sweep_entries(
                    self.settings(),
                    before.take(i as int),
                    observations_of(reports@),
                    now,
                ) + before.skip(i as int),
            decreases snapshot.len() - i,
        {
            let record = &snapshot[i];
            let ghost swept = sweep_entries(
                self.settings(),
                before.take(i as int),
                observations_of(reports@),
                now,
            );
            let (query, observation) = self.observe(rpc, record, now);
            proof {
                assert(record@ == before[i as int]);
                lemma_sweep_step(
                    self.settings(),
                    before,
                    observations_of(reports@),
                    i as int,
                    observation,
                    now,
                );
                lemma_index_of(store.entries(), swept.len() as int);
            }
            let outcome = self.process_record(store, record.signature(), &observation, now);
            let delivered = match &outcome {
                RecordOutcome::Resend { wire_payload, .. } => Some(
                    forwarder.forward(wire_payload).is_ok(),
                ),
                _ => None,
            };
            let report = SweepReport {
                signature: record.signature().clone(),
                query,
                observation,
                outcome,
                delivered,
            };
            proof {
                assert(observations_of(reports@.push(report)) =~= observations_of(reports@).push(
                    observation,
                ));
            }
            reports.push(report);
            i = i + 1;
        }
        proof {
            assert(before.take(i as int) =~= before);
            assert(before.skip(i as int) =~= Seq::<RecordView>::empty());
            let swept = sweep_entries(self.settings(), before, observations_of(reports@), now);
            assert(swept + Seq::<RecordView>::empty() =~= swept);
        }
        reports
    }
}

} // verus!
