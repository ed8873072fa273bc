//! The reasons for which a script rejects a transaction.

use vstd::prelude::*;

verus! {

/// A rejection. The first failing check of a validation decides the
/// value; nothing is aggregated.
#[derive(Debug, Clone, Copy, PartialEq, Eq, Structural)]
pub enum Error {
    /// The transaction holds no item at an index that a rule reads.
    IndexOutOfBound,
    /// A cell lacks a field that a rule reads.
    ItemMissing,
    /// Token cell data is shorter than a balance.
    Encoding,
    /// The token outputs of a group hold more than its inputs.
    Amount,
    /// The args of the executing token script are too short.
    InvalidArgsLen,
    /// The args of the executing resource script are too short.
    InvalidArgsLength,
    /// The counts of group inputs and outputs fit no lifecycle mode.
    InvalidTransactionStructure,
    /// The type args of a created cell are not the identity derived
    /// from the seed.
    InvalidInstanceId,
    /// A created resource cell has lock args.
    LockArgsOtherThanZero,
    /// The data of the consumed counter cell is not a counter.
    InvalidInputCellData,
    /// The data of the produced counter cell is not a counter.
    InvalidOutputCellData,
    /// The data of a created resource cell has the wrong length.
    InvalidDataBytesize,
    /// The declared token supply differs from what the transaction's
    /// outputs hold.
    TokenDistributionMismatch,
    /// The consumed counter is at its maximum.
    CounterValueOverflow,
    /// The produced counter is not the consumed counter plus one.
    InvalidCounterValue,
}

} // verus!
