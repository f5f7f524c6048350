use crate::identity::Identity;
use vstd::prelude::*;

verus! {

/// A movement of value that an operation asks of the value-transfer
/// substrate. The substrate carries it out as a whole or not at all.
#[derive(Clone, Copy, Debug, PartialEq, Eq)]
pub struct Transfer {
    /// The party that pays.
    pub from: Identity,
    /// The party that is paid.
    pub to: Identity,
    /// The amount, in the smallest unit of value.
    pub amount: u64,
}

/// What the substrate reported of a transfer that was asked of it.
#[derive(Clone, Copy, Debug, PartialEq, Eq, Structural)]
pub enum TransferOutcome {
    /// The whole amount moved.
    Completed,
    /// Nothing moved.
    Failed,
}

impl TransferOutcome {
    /// Reads an outcome off the substrate's answer: `true` for a transfer
    /// that completed, `false` for one that failed.
    pub fn from_success(success: bool) -> (outcome: TransferOutcome)
        ensures
            outcome == (if success {
                TransferOutcome::Completed
            } else {
                TransferOutcome::Failed
            }),
    {
        if success {
            TransferOutcome::Completed
        } else {
            TransferOutcome::Failed
        }
    }
}

} // verus!
