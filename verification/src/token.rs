//! The vote-token script: a fungible token whose cells hold a balance in
//! the first sixteen bytes of their data.
//!
//! A token is minted bound to an instance identity. From then on its cells
//! may be split, merged and passed on, and tokens may be destroyed, but a
//! transaction never leaves with more tokens than it came with.

use vstd::prelude::*;
use crate::amount::TokenSum;
use crate::error::Error;
use crate::identity::{calculate_instance_id, identity_outcome, instance_id, verify_instance_id};
use crate::layout::{field, le_value, lemma_le_value_bound, lemma_pow256_values, read_u128_le};
use crate::mode::{is_mint_mode, mint_mode};
use crate::types::{Cell, CellSpec, Input, InputSpec, TransactionSpec, TransactionView,
    cells_view, inputs_view};

verus! {

/// The number of bytes of a balance.
pub const BALANCE_LEN: usize = 16;

/// The least number of bytes of the executing script's args.
pub const ARGS_LEN: usize = 32;

/// The balance that token data holds: its first sixteen bytes as a
/// little-endian number. What follows them is not inspected.
pub open spec fn token_amount(data: Seq<u8>) -> nat {
    le_value(field(data, 0, 16))
}

/// Whether the data of every cell is long enough to hold a balance.
pub open spec fn balances_encoded(cells: Seq<CellSpec>) -> bool {
    forall|i: int| 0 <= i < cells.len() ==> (#[trigger] cells[i]).data.len() >= 16
}

/// The total of the balances of `cells`.
pub open spec fn token_total(cells: Seq<CellSpec>) -> nat
    decreases cells.len(),
{
    if cells.len() == 0 {
        0
    } else {
        token_total(cells.drop_last()) + token_amount(cells.last().data)
    }
}

/// The verdict on a group that does not mint: every cell holds a balance,
/// and the outputs hold no more than the inputs.
pub open spec fn transfer_outcome(inputs: Seq<CellSpec>, outputs: Seq<CellSpec>) -> Result<
    (),
    Error,
> {
    if !balances_encoded(inputs) || !balances_encoded(outputs) {
        Err(Error::Encoding)
    } else if token_total(inputs) < token_total(outputs) {
        Err(Error::Amount)
    } else {
        Ok(())
    }
}

/// The verdict on a mint: the first cell of the group carries the
/// identity derived from the transaction's first input. How much is
/// minted is not constrained.
pub open spec fn mint_outcome(cell: CellSpec, inputs: Seq<InputSpec>) -> Result<(), Error> {
    match cell.type_script {
        None => Err(Error::ItemMissing),
        Some(script) => if inputs.len() == 0 {
            Err(Error::IndexOutOfBound)
        } else {
            identity_outcome(script.args, instance_id(inputs[0].previous_output, 0))
        },
    }
}

/// The verdict of the token script on a transaction.
pub open spec fn outcome(tx: TransactionSpec) -> Result<(), Error> {
    if tx.script.args.len() < 32 {
        Err(Error::InvalidArgsLen)
    } else if mint_mode(tx.group_inputs.len(), tx.group_outputs.len()) {
        mint_outcome(tx.group_outputs[0], tx.inputs)
    } else {
        transfer_outcome(tx.group_inputs, tx.group_outputs)
    }
}

/// A total grows with each cell that is counted.
pub proof fn lemma_token_total_prefix(cells: Seq<CellSpec>, n: int)
    requires
        0 <= n < cells.len(),
    ensures
        token_total(cells.take(n + 1)) == token_total(cells.take(n)) + token_amount(cells[n].data),
{
    assert(cells.take(n + 1).drop_last() =~= cells.take(n));
}

/// Conservation: a group that does not mint is accepted only if its
/// outputs hold no more tokens than its inputs. With every balance
/// encoded, equal totals and smaller output totals are accepted, and a
/// larger output total is rejected as `Amount`; a cell too short for a
/// balance is rejected as `Encoding`.
pub proof fn lemma_token_conservation(inputs: Seq<CellSpec>, outputs: Seq<CellSpec>)
    ensures
        transfer_outcome(inputs, outputs) is Ok ==> token_total(outputs) <= token_total(inputs),
        transfer_outcome(inputs, outputs) is Ok ==> balances_encoded(inputs) && balances_encoded(
            outputs,
        ),
        balances_encoded(inputs) && balances_encoded(outputs) && token_total(outputs)
            <= token_total(inputs) ==> transfer_outcome(inputs, outputs) == Ok::<(), Error>(()),
        balances_encoded(inputs) && balances_encoded(outputs) && token_total(outputs)
            > token_total(inputs) ==> transfer_outcome(inputs, outputs) == Err::<(), Error>(
            Error::Amount,
        ),
        !balances_encoded(inputs) || !balances_encoded(outputs) ==> transfer_outcome(
            inputs,
            outputs,
        ) == Err::<(), Error>(Error::Encoding),
{
}

/// No transaction that the script accepts outside mint mode creates
/// tokens.
pub proof fn lemma_accepted_transfer_conserves(tx: TransactionSpec)
    requires
        outcome(tx) is Ok,
        !mint_mode(tx.group_inputs.len(), tx.group_outputs.len()),
    ensures
        token_total(tx.group_outputs) <= token_total(tx.group_inputs),
{
}

/// Reads the balance of token data.
pub fn read_token_amount(data: &[u8]) -> (r: Result<u128, Error>)
    ensures
        data@.len() >= 16 ==> r == Ok::<u128, Error>(token_amount(data@) as u128),
        data@.len() >= 16 ==> token_amount(data@) <= u128::MAX,
        data@.len() < 16 ==> r == Err::<u128, Error>(Error::Encoding),
{
    if data.len() >= BALANCE_LEN {
        proof {
            lemma_le_value_bound(field(data@, 0, 16));
            lemma_pow256_values();
        }
        Ok(read_u128_le(data, 0))
    } else {
        Err(Error::Encoding)
    }
}

/// Counts the tokens that `cells` hold.
pub fn determine_token_amount(cells: &Vec<Cell>) -> (r: Result<TokenSum, Error>)
    ensures
        balances_encoded(cells_view(cells@)) ==> r is Ok && r.unwrap().value() == token_total(
            cells_view(cells@),
        ),
        !balances_encoded(cells_view(cells@)) ==> r == Err::<TokenSum, Error>(Error::Encoding),
{
    let ghost view = cells_view(cells@);
    let mut total = TokenSum::zero();
    let mut i: usize = 0;
    while i < cells.len()
        invariant
            i <= cells@.len(),
            view == cells_view(cells@),
            total.carries <= i,
            total.value() == token_total(view.take(i as int)),
            balances_encoded(view.take(i as int)),
        decreases cells@.len() - i,
    {
        let cell = &cells[i];
        assert(view[i as int] == cell@);
        match read_token_amount(cell.data.as_slice()) {
            Ok(amount) => {
                total = total.plus(amount);
            },
            Err(e) => {
                return Err(e);
            },
        }
        proof {
            lemma_token_total_prefix(view, i as int);
            assert forall|j: int| 0 <= j < i + 1 implies (#[trigger] view.take(
                i + 1,
            )[j]).data.len() >= 16 by {
                if j < i {
                    assert(view.take(i as int)[j] == view.take(i + 1)[j]);
                }
            }
        }
        i += 1;
    }
    assert(view.take(i as int) =~= view);
    Ok(total)
}

/// Validates a group that does not mint: tokens pass on or are destroyed,
/// none is created.
pub fn validate_transfer(inputs: &Vec<Cell>, outputs: &Vec<Cell>) -> (r: Result<(), Error>)
    ensures
        r == transfer_outcome(cells_view(inputs@), cells_view(outputs@)),
{
    let input_total = match determine_token_amount(inputs) {
        Ok(total) => total,
        Err(e) => {
            return Err(e);
        },
    };
    let output_total = match determine_token_amount(outputs) {
        Ok(total) => total,
        Err(e) => {
            return Err(e);
        },
    };
    if !input_total.at_least(&output_total) {
        return Err(Error::Amount);
    }
    Ok(())
}

/// Validates a mint: `cell`, the first output of the group, must carry
/// the identity derived from the first of `inputs`.
pub fn validate_create(cell: &Cell, inputs: &Vec<Input>) -> (r: Result<(), Error>)
    ensures
        r == mint_outcome(cell@, inputs_view(inputs@)),
{
    let script = match &cell.type_script {
        Some(script) => script,
        None => {
            return Err(Error::ItemMissing);
        },
    };
    if inputs.len() == 0 {
        return Err(Error::IndexOutOfBound);
    }
    let instance_id = calculate_instance_id(&inputs[0].previous_output, 0);
    verify_instance_id(script.args.as_slice(), &instance_id)
}

/// Runs the token script on a transaction.
pub fn validate(tx: &TransactionView) -> (r: Result<(), Error>)
    ensures
        r == outcome(tx@),
{
    if tx.script.args.len() < ARGS_LEN {
        return Err(Error::InvalidArgsLen);
    }
    if is_mint_mode(tx.group_inputs.len(), tx.group_outputs.len()) {
        return validate_create(&tx.group_outputs[0], &tx.inputs);
    }
    validate_transfer(&tx.group_inputs, &tx.group_outputs)
}

} // verus!
