use std::cell::{Cell, RefCell};

use atlas_txn_sender::forwarder::{Forwarder, TransientForwardFailure};
use atlas_txn_sender::record::{CommitmentConfig, CommitmentLevel, StructuredView, TerminalCause, TransactionRecord};
use atlas_txn_sender::rpc_server::{AtlasTxnSenderImpl, DecodedTransaction, SendTransactionConfig};
use atlas_txn_sender::scheduler::{ConfirmationQuery, RecordOutcome, SchedulerConfig, SweepReport};
use atlas_txn_sender::solana_rpc::{SolanaRpc, UnixTimestamp};
use atlas_txn_sender::txn_sender::TxnSender;

/// An oracle and slot tracker that answers from a script and counts its calls.
struct ScriptedChain {
    slot: Cell<Option<u64>>,
    confirmed: RefCell<Vec<(String, UnixTimestamp)>>,
    slot_calls: Cell<usize>,
    default_calls: Cell<usize>,
    commitment_calls: RefCell<Vec<(String, CommitmentLevel)>>,
}

impl ScriptedChain {
    fn new(slot: Option<u64>) -> Self {
        ScriptedChain {
            slot: Cell::new(slot),
            confirmed: RefCell::new(Vec::new()),
            slot_calls: Cell::new(0),
            default_calls: Cell::new(0),
            commitment_calls: RefCell::new(Vec::new()),
        }
    }

    fn confirm(&self, signature: &str, at: UnixTimestamp) {
        self.confirmed.borrow_mut().push((signature.to_string(), at));
    }

    fn lookup(&self, signature: &str) -> Option<UnixTimestamp> {
        self.confirmed.borrow().iter().find(|(s, _)| s == signature).map(|(_, at)| *at)
    }
}

impl SolanaRpc for ScriptedChain {
    fn get_next_slot(&self) -> Option<u64> {
        self.slot_calls.set(self.slot_calls.get() + 1);
        self.slot.get()
    }

    fn confirm_transaction(&self, signature: String) -> Option<UnixTimestamp> {
        self.default_calls.set(self.default_calls.get() + 1);
        self.lookup(&signature)
    }

    fn confirm_transaction_with_commitment(
        &self,
        signature: String,
        commitment_config: CommitmentConfig,
    ) -> Option<UnixTimestamp> {
        self.commitment_calls.borrow_mut().push((signature.clone(), commitment_config.commitment));
        self.lookup(&signature)
    }
}

/// A forwarder that records every payload and fails on demand.
struct RecordingForwarder {
    fail: Cell<bool>,
    sent: RefCell<Vec<Vec<u8>>>,
}

impl RecordingForwarder {
    fn new(fail: bool) -> Self {
        RecordingForwarder { fail: Cell::new(fail), sent: RefCell::new(Vec::new()) }
    }

    fn attempts(&self) -> usize {
        self.sent.borrow().len()
    }
}

impl Forwarder for RecordingForwarder {
    fn forward(&self, wire_payload: &Vec<u8>) -> Result<(), TransientForwardFailure> {
        self.sent.borrow_mut().push(wire_payload.clone());
        if self.fail.get() {
            Err(TransientForwardFailure)
        } else {
            Ok(())
        }
    }
}

fn config(resend_interval: u64) -> SchedulerConfig {
    SchedulerConfig { resend_interval, validity_window: 150, default_max_retries: 5, tick_interval: 1 }
}

fn params(max_retries: Option<usize>) -> SendTransactionConfig {
    SendTransactionConfig {
        skip_preflight: true,
        preflight_commitment: Some(CommitmentLevel::Confirmed),
        encoding: None,
        max_retries,
        min_context_slot: None,
    }
}

fn transaction(fill: u8, blockhash_slot: u64) -> DecodedTransaction {
    DecodedTransaction {
        wire_transaction: vec![fill, fill, 0xFF],
        signatures: vec![[fill; 64]],
        structured_view: StructuredView { recent_blockhash: [fill; 32], blockhash_slot },
    }
}

fn submit(server: &mut AtlasTxnSenderImpl, fill: u8, blockhash_slot: u64, max_retries: Option<usize>, now: u64) -> String {
    server
        .send_transaction(transaction(fill, blockhash_slot), params(max_retries), now, 1_700_000_000)
        .unwrap()
}

fn sweep(server: &mut AtlasTxnSenderImpl, chain: &ScriptedChain, forwarder: &RecordingForwarder, now: u64) -> Vec<SweepReport> {
    let sender = &mut server.txn_sender;
    sender.scheduler.sweep(&mut sender.store, chain, forwarder, now)
}

#[test]
fn retries_exhausted_after_three_resends() {
    let mut server = AtlasTxnSenderImpl::new(TxnSender::new(config(1)));
    let chain = ScriptedChain::new(Some(120));
    let forwarder = RecordingForwarder::new(false);
    let signature = submit(&mut server, 7, 100, Some(3), 0);

    for tick in 1..=3u64 {
        let reports = sweep(&mut server, &chain, &forwarder, tick);
        assert_eq!(reports.len(), 1);
        assert_eq!(reports[0].signature, signature);
        match &reports[0].outcome {
            RecordOutcome::Resend { wire_payload, attempt } => {
                assert_eq!(wire_payload, &vec![7u8, 7, 0xFF]);
                assert_eq!(*attempt as u64, tick);
            }
            other => panic!("sweep {tick}: expected a resend, got {:?}", other),
        }
        assert_eq!(reports[0].delivered, Some(true));
        assert_eq!(forwarder.attempts() as u64, tick);
        assert_eq!(server.txn_sender.store.get(&signature).unwrap().retry_count() as u64, tick);
    }

    let reports = sweep(&mut server, &chain, &forwarder, 4);
    assert_eq!(reports.len(), 1);
    match &reports[0].outcome {
        RecordOutcome::Terminated(event) => {
            assert_eq!(event.signature, signature);
            assert_eq!(event.cause, TerminalCause::RetriesExhausted);
            assert_eq!(event.retry_count, 3);
            assert_eq!(event.latency, 4);
            assert_eq!(event.confirmed_at, None);
        }
        other => panic!("expected a removal, got {:?}", other),
    }
    assert_eq!(reports[0].delivered, None);
    assert_eq!(forwarder.attempts(), 3);
    assert!(server.txn_sender.store.is_empty());

    assert!(sweep(&mut server, &chain, &forwarder, 5).is_empty());
    assert_eq!(forwarder.attempts(), 3);
}

#[test]
fn confirmed_on_second_sweep_after_one_resend() {
    let mut server = AtlasTxnSenderImpl::new(TxnSender::new(config(1)));
    let chain = ScriptedChain::new(Some(120));
    let forwarder = RecordingForwarder::new(false);
    let signature = submit(&mut server, 3, 100, Some(5), 0);

    let first = sweep(&mut server, &chain, &forwarder, 1);
    assert!(matches!(first[0].outcome, RecordOutcome::Resend { attempt: 1, .. }));
    assert_eq!(forwarder.attempts(), 1);

    chain.confirm(&signature, 1_700_000_042);
    let second = sweep(&mut server, &chain, &forwarder, 2);
    assert_eq!(second.len(), 1);
    assert_eq!(second[0].observation.confirmed_at, Some(1_700_000_042));
    match &second[0].outcome {
        RecordOutcome::Terminated(event) => {
            assert_eq!(event.cause, TerminalCause::Confirmed);
            assert_eq!(event.retry_count, 1);
            assert_eq!(event.confirmed_at, Some(1_700_000_042));
            assert_eq!(event.latency, 2);
        }
        other => panic!("expected a removal, got {:?}", other),
    }
    assert_eq!(second[0].delivered, None);
    assert_eq!(forwarder.attempts(), 1);
    assert!(server.txn_sender.store.is_empty());

    assert!(sweep(&mut server, &chain, &forwarder, 3).is_empty());
    assert_eq!(forwarder.attempts(), 1);
}

#[test]
fn expired_at_submission_is_removed_on_first_sweep() {
    let mut server = AtlasTxnSenderImpl::new(TxnSender::new(config(1)));
    let chain = ScriptedChain::new(Some(300));
    let forwarder = RecordingForwarder::new(false);
    let signature = submit(&mut server, 5, 100, Some(3), 0);

    let reports = sweep(&mut server, &chain, &forwarder, 1);
    assert_eq!(reports.len(), 1);
    match &reports[0].outcome {
        RecordOutcome::Terminated(event) => {
            assert_eq!(event.signature, signature);
            assert_eq!(event.cause, TerminalCause::Expired);
            assert_eq!(event.retry_count, 0);
        }
        other => panic!("expected a removal, got {:?}", other),
    }
    assert_eq!(forwarder.attempts(), 0);
    assert!(server.txn_sender.store.is_empty());
    assert!(sweep(&mut server, &chain, &forwarder, 2).is_empty());
    assert_eq!(forwarder.attempts(), 0);
}

#[test]
fn confirmation_wins_when_resend_is_due_in_same_sweep() {
    let mut server = AtlasTxnSenderImpl::new(TxnSender::new(config(1)));
    let chain = ScriptedChain::new(Some(120));
    let forwarder = RecordingForwarder::new(false);
    let signature = submit(&mut server, 8, 100, Some(3), 0);
    chain.confirm(&signature, 99);

    let reports = sweep(&mut server, &chain, &forwarder, 50);
    assert!(matches!(&reports[0].outcome, RecordOutcome::Terminated(e) if e.cause == TerminalCause::Confirmed));
    assert_eq!(forwarder.attempts(), 0);
    // the slot is not even asked for once the record is known to be confirmed
    assert_eq!(chain.slot_calls.get(), 0);
    assert_eq!(reports[0].observation.current_slot, None);
    assert!(server.txn_sender.store.is_empty());
}

#[test]
fn forwarder_failures_do_not_remove_the_record() {
    let mut server = AtlasTxnSenderImpl::new(TxnSender::new(config(1)));
    let chain = ScriptedChain::new(Some(120));
    let forwarder = RecordingForwarder::new(true);
    let signature = submit(&mut server, 2, 100, Some(5), 0);

    for tick in 1..=4u64 {
        let reports = sweep(&mut server, &chain, &forwarder, tick);
        assert!(matches!(reports[0].outcome, RecordOutcome::Resend { .. }));
        assert_eq!(reports[0].delivered, Some(false));
    }
    let live = server.txn_sender.store.get(&signature).unwrap();
    assert_eq!(live.retry_count(), 4);
    assert_eq!(live.max_retries(), 5);
    assert_eq!(live.last_sent_monotonic(), 4);
    assert_eq!(forwarder.attempts(), 4);
}

#[test]
fn unknown_slot_does_not_expire_but_resends() {
    let mut server = AtlasTxnSenderImpl::new(TxnSender::new(config(1)));
    let chain = ScriptedChain::new(None);
    let forwarder = RecordingForwarder::new(false);
    let signature = submit(&mut server, 4, 0, Some(2), 0);

    let reports = sweep(&mut server, &chain, &forwarder, 1);
    assert_eq!(chain.slot_calls.get(), 1);
    assert_eq!(reports[0].observation.current_slot, None);
    assert!(matches!(reports[0].outcome, RecordOutcome::Resend { attempt: 1, .. }));
    assert!(server.txn_sender.store.contains(&signature));
}

#[test]
fn records_not_due_are_skipped_without_asking_for_the_slot() {
    let mut server = AtlasTxnSenderImpl::new(TxnSender::new(config(10)));
    let chain = ScriptedChain::new(Some(9_999));
    let forwarder = RecordingForwarder::new(false);
    let signature = submit(&mut server, 6, 0, Some(2), 100);

    let reports = sweep(&mut server, &chain, &forwarder, 105);
    assert!(matches!(reports[0].outcome, RecordOutcome::NotDue));
    assert_eq!(reports[0].delivered, None);
    assert_eq!(chain.slot_calls.get(), 0);
    assert_eq!(forwarder.attempts(), 0);
    assert!(server.txn_sender.store.contains(&signature));
    // once due, the stale blockhash is noticed
    let reports = sweep(&mut server, &chain, &forwarder, 110);
    assert!(matches!(&reports[0].outcome, RecordOutcome::Terminated(e) if e.cause == TerminalCause::Expired));
}

#[test]
fn sweep_treats_each_record_on_its_own() {
    let mut server = AtlasTxnSenderImpl::new(TxnSender::new(config(5)));
    let chain = ScriptedChain::new(Some(200));
    let forwarder = RecordingForwarder::new(false);
    let confirmed = submit(&mut server, 1, 100, Some(3), 0);
    let expired = submit(&mut server, 2, 10, Some(3), 0);
    let exhausted = submit(&mut server, 3, 100, Some(0), 0);
    let resent = submit(&mut server, 4, 100, Some(3), 0);
    let young = submit(&mut server, 5, 100, Some(3), 8);
    chain.confirm(&confirmed, 77);

    let reports = sweep(&mut server, &chain, &forwarder, 10);
    assert_eq!(reports.len(), 5);
    let names: Vec<&String> = reports.iter().map(|r| &r.signature).collect();
    assert_eq!(names, vec![&confirmed, &expired, &exhausted, &resent, &young]);
    assert!(matches!(&reports[0].outcome, RecordOutcome::Terminated(e) if e.cause == TerminalCause::Confirmed));
    assert!(matches!(&reports[1].outcome, RecordOutcome::Terminated(e) if e.cause == TerminalCause::Expired));
    assert!(matches!(&reports[2].outcome, RecordOutcome::Terminated(e) if e.cause == TerminalCause::RetriesExhausted));
    assert!(matches!(&reports[3].outcome, RecordOutcome::Resend { attempt: 1, .. }));
    assert!(matches!(&reports[4].outcome, RecordOutcome::NotDue));
    assert_eq!(forwarder.attempts(), 1);
    assert_eq!(forwarder.sent.borrow()[0], vec![4u8, 4, 0xFF]);

    let left: Vec<String> = server.txn_sender.store.snapshot().iter().map(|r| r.signature().clone()).collect();
    assert_eq!(left, vec![resent.clone(), young.clone()]);
    assert_eq!(server.txn_sender.store.get(&resent).unwrap().retry_count(), 1);
    assert_eq!(server.txn_sender.store.get(&young).unwrap().retry_count(), 0);
}

#[test]
fn oracle_is_asked_at_the_requested_commitment() {
    let mut sender = TxnSender::new(config(1));
    let chain = ScriptedChain::new(Some(1));
    let forwarder = RecordingForwarder::new(false);
    let view = StructuredView { recent_blockhash: [0u8; 32], blockhash_slot: 0 };
    let with = TransactionRecord::new("with".to_string(), vec![1], view, 0, 0, 1, Some(CommitmentLevel::Processed));
    let without = TransactionRecord::new("without".to_string(), vec![2], view, 0, 0, 1, None);
    assert!(sender.send_transaction(with).is_ok());
    assert!(sender.send_transaction(without).is_ok());

    let reports = sender.scheduler.sweep(&mut sender.store, &chain, &forwarder, 1);
    assert_eq!(
        reports[0].query,
        ConfirmationQuery::WithCommitment(CommitmentConfig { commitment: CommitmentLevel::Processed })
    );
    assert_eq!(reports[1].query, ConfirmationQuery::Default);
    assert_eq!(*chain.commitment_calls.borrow(), vec![("with".to_string(), CommitmentLevel::Processed)]);
    assert_eq!(chain.default_calls.get(), 1);
}

#[test]
fn duplicate_submission_does_not_reset_retry_state() {
    let mut server = AtlasTxnSenderImpl::new(TxnSender::new(config(1)));
    let chain = ScriptedChain::new(Some(120));
    let forwarder = RecordingForwarder::new(false);
    let signature = submit(&mut server, 9, 100, Some(3), 0);
    sweep(&mut server, &chain, &forwarder, 1);
    sweep(&mut server, &chain, &forwarder, 2);

    let again = server.send_transaction(transaction(9, 100), params(Some(3)), 2, 1_700_000_000);
    assert!(again.is_err());
    let live = server.txn_sender.store.get(&signature).unwrap();
    assert_eq!(live.retry_count(), 2);
    assert_eq!(live.submitted_monotonic(), 0);

    sweep(&mut server, &chain, &forwarder, 3);
    sweep(&mut server, &chain, &forwarder, 4);
    assert!(server.txn_sender.store.is_empty());
    let accepted = server.send_transaction(transaction(9, 100), params(Some(3)), 5, 1_700_000_000);
    assert_eq!(accepted.unwrap(), signature);
    assert_eq!(server.txn_sender.store.get(&signature).unwrap().retry_count(), 0);
}
