//! Classification of a script invocation by the number of cells of its
//! group among the inputs and the outputs.

use vstd::prelude::*;
use crate::error::Error;

verus! {

/// The lifecycle step that one invocation of the resource script governs.
#[derive(Debug, Clone, Copy, PartialEq, Eq, Structural)]
pub enum Mode {
    /// One group input, no group output.
    Burn,
    /// No group input, one group output.
    Create,
    /// One group input, one group output.
    Transfer,
}

/// The mode table of the resource script, over the counts of group inputs
/// and group outputs.
pub open spec fn resolve_mode(group_inputs: nat, group_outputs: nat) -> Result<Mode, Error> {
    if group_inputs == 1 && group_outputs == 0 {
        Ok(Mode::Burn)
    } else if group_inputs == 0 && group_outputs == 1 {
        Ok(Mode::Create)
    } else if group_inputs == 1 && group_outputs == 1 {
        Ok(Mode::Transfer)
    } else {
        Err(Error::InvalidTransactionStructure)
    }
}

/// Whether an invocation of the token script mints: the group has outputs
/// and no input.
pub open spec fn mint_mode(group_inputs: nat, group_outputs: nat) -> bool {
    group_inputs == 0 && group_outputs > 0
}

/// The mode table is complete and its rows do not overlap: every pair of
/// counts has exactly one verdict, a mode on the three patterns of one
/// cell and the structural error on every other pair.
pub proof fn lemma_mode_table_complete(group_inputs: nat, group_outputs: nat)
    ensures
        resolve_mode(group_inputs, group_outputs) == Ok::<Mode, Error>(Mode::Burn)
            <==> group_inputs == 1 && group_outputs == 0,
        resolve_mode(group_inputs, group_outputs) == Ok::<Mode, Error>(Mode::Create)
            <==> group_inputs == 0 && group_outputs == 1,
        resolve_mode(group_inputs, group_outputs) == Ok::<Mode, Error>(Mode::Transfer)
            <==> group_inputs == 1 && group_outputs == 1,
        resolve_mode(group_inputs, group_outputs) == Err::<Mode, Error>(
            Error::InvalidTransactionStructure,
        ) <==> group_inputs > 1 || group_outputs > 1 || (group_inputs == 0 && group_outputs
            == 0),
        resolve_mode(group_inputs, group_outputs) is Err ==> resolve_mode(
            group_inputs,
            group_outputs,
        ) == Err::<Mode, Error>(Error::InvalidTransactionStructure),
{
}

/// Determines the mode of the resource script. One invocation governs
/// exactly one cell: every other pattern of counts is rejected.
pub fn determine_mode(group_inputs: usize, group_outputs: usize) -> (r: Result<Mode, Error>)
    ensures
        r == resolve_mode(group_inputs as nat, group_outputs as nat),
        r is Ok <==> group_inputs <= 1 && group_outputs <= 1 && group_inputs + group_outputs >= 1,
        r is Err ==> r == Err::<Mode, Error>(Error::InvalidTransactionStructure),
{
    if group_inputs == 1 && group_outputs == 0 {
        return Ok(Mode::Burn);
    }
    if group_inputs == 0 && group_outputs == 1 {
        return Ok(Mode::Create);
    }
    if group_inputs == 1 && group_outputs == 1 {
        return Ok(Mode::Transfer);
    }
    Err(Error::InvalidTransactionStructure)
}

/// Determines whether the token script runs in mint mode. Unlike the
/// resource script, the token script accepts any number of group cells.
pub fn is_mint_mode(group_inputs: usize, group_outputs: usize) -> (r: bool)
    ensures
        r == mint_mode(group_inputs as nat, group_outputs as nat),
{
    group_inputs == 0 && group_outputs > 0
}

} // verus!
