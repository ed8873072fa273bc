//! The vote resource script: a cell that anchors one vote.
//!
//! The script exists in two builds with different cell data, which are
//! never combined: [`distribution`], whose cell declares the supply of
//! vote tokens handed out at its creation, and [`counter`], whose cell
//! holds a counter that each transfer raises by one. Both create the cell
//! under the rules of [`validate_creation`], and both let it be destroyed
//! without any check of their own.

use vstd::prelude::*;
use crate::error::Error;
use crate::identity::{calculate_instance_id, identity_outcome, instance_id, verify_instance_id};
use crate::types::{Cell, CellSpec, Input, InputSpec, inputs_view};

pub mod counter;
pub mod distribution;

verus! {

/// The least number of bytes of the executing script's args.
pub const ARGS_LEN: usize = 32;

/// The verdict on the shape and identity of a created resource cell: it
/// has no lock args, so that it is bound to no owner, and its type args
/// are the identity derived from the transaction's first input.
pub open spec fn creation_outcome(cell: CellSpec, inputs: Seq<InputSpec>) -> Result<(), Error> {
    match cell.type_script {
        None => Err(Error::ItemMissing),
        Some(script) => if cell.lock.args.len() != 0 {
            Err(Error::LockArgsOtherThanZero)
        } else if inputs.len() == 0 {
            Err(Error::IndexOutOfBound)
        } else {
            identity_outcome(script.args, instance_id(inputs[0].previous_output, 0))
        },
    }
}

/// Validates the shape and identity of a created resource cell.
pub fn validate_creation(cell: &Cell, inputs: &Vec<Input>) -> (r: Result<(), Error>)
    ensures
        r == creation_outcome(cell@, inputs_view(inputs@)),
{
    let script = match &cell.type_script {
        Some(script) => script,
        None => {
            return Err(Error::ItemMissing);
        },
    };
    if cell.lock.args.len() != 0 {
        return Err(Error::LockArgsOtherThanZero);
    }
    if inputs.len() == 0 {
        return Err(Error::IndexOutOfBound);
    }
    let instance_id = calculate_instance_id(&inputs[0].previous_output, 0);
    verify_instance_id(script.args.as_slice(), &instance_id)
}

} // verus!
