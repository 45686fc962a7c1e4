//! The chain, as far as the relay consults it.

use crate::record::CommitmentConfig;
use vstd::prelude::*;

verus! {

/// Seconds since the Unix epoch.
pub type UnixTimestamp = i64;

/// Read-only view of chain progress: the slot tracker and the confirmation
/// oracle. Nothing is assumed about what an implementation answers, so
/// everything the relay does with an answer is proved for every answer.
pub trait SolanaRpc {
    /// The most recently observed slot, or `None` while it is unknown.
    fn get_next_slot(&self) -> Option<u64>;

    /// The block time of the transaction if it is confirmed at the default
    /// commitment, `None` otherwise.
    fn confirm_transaction(&self, signature: String) -> Option<UnixTimestamp>;

    /// The block time of the transaction if it is confirmed at the given
    /// commitment, `None` otherwise.
    fn confirm_transaction_with_commitment(
        &self,
        signature: String,
        commitment_config: CommitmentConfig,
    ) -> Option<UnixTimestamp>;
}

} // verus!
