//! The counter build of the vote resource script.
//!
//! The cell is created with a 32-byte vote title as its data. A transfer
//! reads the data of the consumed and of the produced cell as an 8-byte
//! counter and accepts only a step of exactly one.

use vstd::prelude::*;
use crate::error::Error;
use crate::layout::{field, le_value, lemma_le_value_bound, lemma_pow256_values, read_u64_le,
    validate_length};
use crate::mode::{determine_mode, resolve_mode, Mode};
use crate::types::{Cell, CellSpec, Input, InputSpec, TransactionSpec, TransactionView,
    inputs_view};
use crate::vote_resource::{creation_outcome, validate_creation, ARGS_LEN};

verus! {

/// The number of bytes of a vote title.
pub const TITLE_LEN: usize = 32;

/// The number of bytes of a counter.
pub const COUNTER_LEN: usize = 8;

/// The verdict on a created cell: shape and identity, then data of
/// exactly the length of a title.
pub open spec fn create_outcome(cell: CellSpec, inputs: Seq<InputSpec>) -> Result<(), Error> {
    if creation_outcome(cell, inputs) is Err {
        creation_outcome(cell, inputs)
    } else if cell.data.len() != 32 {
        Err(Error::InvalidDataBytesize)
    } else {
        Ok(())
    }
}

/// The verdict on a transfer, over the data of the consumed and of the
/// produced cell.
pub open spec fn transfer_outcome(input_data: Seq<u8>, output_data: Seq<u8>) -> Result<
    (),
    Error,
> {
    if input_data.len() != 8 {
        Err(Error::InvalidInputCellData)
    } else if output_data.len() != 8 {
        Err(Error::InvalidOutputCellData)
    } else if le_value(input_data) == u64::MAX {
        Err(Error::CounterValueOverflow)
    } else if le_value(output_data) != le_value(input_data) + 1 {
        Err(Error::InvalidCounterValue)
    } else {
        Ok(())
    }
}

/// The verdict of the counter build on a transaction.
pub open spec fn outcome(tx: TransactionSpec) -> Result<(), Error> {
    if tx.script.args.len() < 32 {
        Err(Error::InvalidArgsLength)
    } else {
        match resolve_mode(tx.group_inputs.len(), tx.group_outputs.len()) {
            Ok(Mode::Burn) => Ok(()),
            Ok(Mode::Create) => create_outcome(tx.group_outputs[0], tx.inputs),
            Ok(Mode::Transfer) => transfer_outcome(
                tx.group_inputs[0].data,
                tx.group_outputs[0].data,
            ),
            Err(e) => Err(e),
        }
    }
}

/// The counter only ever steps by one: between two 8-byte counters, a
/// transfer is accepted exactly if the produced counter is the consumed
/// one plus one. A consumed counter at the maximum is rejected as
/// `CounterValueOverflow` whatever is produced, and every other step as
/// `InvalidCounterValue`.
pub proof fn lemma_counter_steps_by_one(input_data: Seq<u8>, output_data: Seq<u8>)
    requires
        input_data.len() == 8,
        output_data.len() == 8,
    ensures
        transfer_outcome(input_data, output_data) is Ok <==> le_value(output_data) == le_value(
            input_data,
        ) + 1,
        le_value(input_data) == u64::MAX ==> transfer_outcome(input_data, output_data) == Err::<
            (),
            Error,
        >(Error::CounterValueOverflow),
        le_value(input_data) != u64::MAX && le_value(output_data) != le_value(input_data) + 1
            ==> transfer_outcome(input_data, output_data) == Err::<(), Error>(
            Error::InvalidCounterValue,
        ),
{
    lemma_le_value_bound(input_data);
    lemma_le_value_bound(output_data);
    lemma_pow256_values();
}

/// Every transfer that the build accepts raises the counter by exactly
/// one, from a value below the maximum.
pub proof fn lemma_accepted_transfer_steps_by_one(tx: TransactionSpec)
    requires
        outcome(tx) is Ok,
        tx.group_inputs.len() == 1,
        tx.group_outputs.len() == 1,
    ensures
        tx.group_inputs[0].data.len() == 8,
        tx.group_outputs[0].data.len() == 8,
        le_value(tx.group_inputs[0].data) < u64::MAX,
        le_value(tx.group_outputs[0].data) == le_value(tx.group_inputs[0].data) + 1,
{
    lemma_le_value_bound(tx.group_inputs[0].data);
    lemma_pow256_values();
}

/// A cell is destroyed without a look at its data: with args of full
/// length, one group input and no group output, the build accepts.
pub proof fn lemma_burn_is_exempt(tx: TransactionSpec)
    requires
        tx.script.args.len() >= 32,
        tx.group_inputs.len() == 1,
        tx.group_outputs.len() == 0,
    ensures
        outcome(tx) == Ok::<(), Error>(()),
{
}

/// Validates the creation of the cell of the group.
pub fn validate_create(cell: &Cell, inputs: &Vec<Input>) -> (r: Result<(), Error>)
    ensures
        r == create_outcome(cell@, inputs_view(inputs@)),
{
    match validate_creation(cell, inputs) {
        Ok(()) => {},
        Err(e) => {
            return Err(e);
        },
    }
    if !validate_length(cell.data.as_slice(), TITLE_LEN) {
        return Err(Error::InvalidDataBytesize);
    }
    Ok(())
}

/// Validates a transfer, given the data of the consumed and of the
/// produced cell of the group.
pub fn validate_transfer(input_data: &[u8], output_data: &[u8]) -> (r: Result<(), Error>)
    ensures
        r == transfer_outcome(input_data@, output_data@),
{
    if !validate_length(input_data, COUNTER_LEN) {
        return Err(Error::InvalidInputCellData);
    }
    if !validate_length(output_data, COUNTER_LEN) {
        return Err(Error::InvalidOutputCellData);
    }
    let input_value = read_u64_le(input_data, 0);
    let output_value = read_u64_le(output_data, 0);
    assert(field(input_data@, 0, 8) =~= input_data@);
    assert(field(output_data@, 0, 8) =~= output_data@);
    if input_value == u64::MAX {
        return Err(Error::CounterValueOverflow);
    }
    if input_value + 1 != output_value {
        return Err(Error::InvalidCounterValue);
    }
    Ok(())
}

/// Runs the counter build on a transaction.
pub fn validate(tx: &TransactionView) -> (r: Result<(), Error>)
    ensures
        r == outcome(tx@),
{
    if tx.script.args.len() < ARGS_LEN {
        return Err(Error::InvalidArgsLength);
    }
    match determine_mode(tx.group_inputs.len(), tx.group_outputs.len()) {
        Ok(Mode::Burn) => Ok(()),
        Ok(Mode::Create) => validate_create(&tx.group_outputs[0], &tx.inputs),
        Ok(Mode::Transfer) => validate_transfer(
            tx.group_inputs[0].data.as_slice(),
            tx.group_outputs[0].data.as_slice(),
        ),
        Err(e) => Err(e),
    }
}

} // verus!
