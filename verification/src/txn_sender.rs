//! The relay engine: the store of in-flight transactions together with the
//! scheduler that sweeps it.

use crate::record::TransactionRecord;
use crate::scheduler::{RetryScheduler, SchedulerConfig};
use crate::store::{DuplicateSignature, TransactionStore};
use vstd::prelude::*;

verus! {

/// Store and scheduler of one relay. A sweep is
/// `sender.scheduler.sweep(&mut sender.store, ..)`.
#[derive(Debug)]
pub struct TxnSender {
    pub store: TransactionStore,
    pub scheduler: RetryScheduler,
}

impl TxnSender {
    /// A relay with no transaction in flight.
    pub fn new(config: SchedulerConfig) -> (sender: Self)
        ensures
            sender.store.wf(),
            sender.store.entries() == Seq::<crate::record::RecordView>::empty(),
            sender.scheduler.settings() == config,
    {
        TxnSender { store: TransactionStore::new(), scheduler: RetryScheduler::new(config) }
    }

    /// Takes a transaction into the relay. It is not sent at once: the next
    /// sweep that finds it due makes the first attempt. A signature that is
    /// already in flight is refused, and the record in flight keeps its
    /// retry state.
    pub fn send_transaction(&mut self, record: TransactionRecord) -> (result: Result<
        (),
        DuplicateSignature,
    >)
        requires
            old(self).store.wf(),
            record.wf(),
        ensures
            final(self).store.wf(),
            final(self).scheduler == old(self).scheduler,
            match result {
                Ok(()) => {
                    &&& !old(self).store@.contains_key(record@.signature)
                    &&& final(self).store.entries() == old(self).store.entries().push(record@)
                    &&& final(self).store@ == old(self).store@.insert(record@.signature, record@)
                },
                Err(e) => {
                    &&& old(self).store@.contains_key(record@.signature)
                    &&& e.signature@ == record@.signature
                    &&& final(self).store.entries() == old(self).store.entries()
                },
            },
    {
        self.store.insert(record)
    }
}

} // verus!
