use dao_scripts::amount::TokenSum;
use dao_scripts::error::Error;
use dao_scripts::identity::calculate_instance_id;
use dao_scripts::token::{
    determine_token_amount, read_token_amount, validate, validate_create, validate_transfer,
};
use dao_scripts::types::{Cell, HashType, Input, OutPoint, Script, TransactionView};

const ALWAYS_SUCCESS_CODE_HASH: [u8; 32] = [0x11; 32];
const VOTING_UDT_CODE_HASH: [u8; 32] = [0x22; 32];

fn lock_script() -> Script {
    Script { code_hash: ALWAYS_SUCCESS_CODE_HASH, hash_type: HashType::Data, args: vec![] }
}

fn type_script(args: Vec<u8>) -> Script {
    Script { code_hash: VOTING_UDT_CODE_HASH, hash_type: HashType::Data, args }
}

fn out_point(seed: u8) -> OutPoint {
    let mut tx_hash = [0u8; 32];
    for (i, byte) in tx_hash.iter_mut().enumerate() {
        *byte = seed.wrapping_mul(31).wrapping_add(i as u8);
    }
    OutPoint { tx_hash, index: 0 }
}

fn token_cell(script: &Script, data: Vec<u8>) -> Cell {
    Cell {
        capacity: 10_000_000_000,
        data,
        lock: lock_script(),
        type_script: Some(script.clone()),
    }
}

fn plain_cell(data: Vec<u8>) -> Cell {
    Cell { capacity: 10_000_000_000, data, lock: lock_script(), type_script: None }
}

fn input(previous_output: OutPoint, cell: Cell) -> Input {
    Input { previous_output, cell }
}

/// A transaction whose cells of the script's group are exactly the cells
/// that carry `script` as their type.
fn transaction(script: &Script, inputs: Vec<Input>, outputs: Vec<Cell>) -> TransactionView {
    let group_inputs = inputs
        .iter()
        .map(|i| i.cell.clone())
        .filter(|c| c.type_script.as_ref() == Some(script))
        .collect();
    let group_outputs =
        outputs.iter().filter(|c| c.type_script.as_ref() == Some(script)).cloned().collect();
    TransactionView { script: script.clone(), inputs, outputs, group_inputs, group_outputs }
}

fn zero_args_script() -> Script {
    type_script([0u8; 32].to_vec())
}

#[test]
fn test_sudt_burn() {
    let script = zero_args_script();
    let data = 9_000u128.to_le_bytes().to_vec();
    let inputs = vec![input(out_point(1), token_cell(&script, data))];
    let tx = transaction(&script, inputs, vec![]);
    assert_eq!(validate(&tx), Ok(()));
}

#[test]
fn test_sudt_burn_zero_token_cell() {
    let script = zero_args_script();
    let data = 0u128.to_le_bytes().to_vec();
    let inputs = vec![input(out_point(1), token_cell(&script, data))];
    let tx = transaction(&script, inputs, vec![]);
    assert_eq!(validate(&tx), Ok(()));
}

#[test]
fn test_sudt_burn_multiple() {
    let script = zero_args_script();
    let data = 9_000u128.to_le_bytes().to_vec();
    let one = input(out_point(1), token_cell(&script, data));
    let inputs = vec![one.clone(), one.clone(), one];
    let tx = transaction(&script, inputs, vec![]);
    assert_eq!(tx.group_inputs.len(), 3);
    assert_eq!(validate(&tx), Ok(()));
}

#[test]
fn test_sudt_burn_multiple_zero_token_cells() {
    let script = zero_args_script();
    let data = 0u128.to_le_bytes().to_vec();
    let one = input(out_point(1), token_cell(&script, data));
    let inputs = vec![one.clone(), one.clone(), one];
    let tx = transaction(&script, inputs, vec![]);
    assert_eq!(validate(&tx), Ok(()));
}

#[test]
fn test_sudt_create() {
    let seed = out_point(1);
    let script = type_script(calculate_instance_id(&seed, 0).to_vec());
    let inputs = vec![input(seed, plain_cell(vec![]))];
    let outputs = vec![token_cell(&script, 9_000u128.to_le_bytes().to_vec())];
    let tx = transaction(&script, inputs, outputs);
    assert_eq!(tx.group_inputs.len(), 0);
    assert_eq!(validate(&tx), Ok(()));
}

#[test]
fn test_sudt_create_multiple() {
    let seed = out_point(1);
    let script = type_script(calculate_instance_id(&seed, 0).to_vec());
    let one = input(seed, plain_cell(vec![]));
    let inputs = vec![one.clone(), one.clone(), one];
    let output = token_cell(&script, 9_000u128.to_le_bytes().to_vec());
    let outputs = vec![output.clone(), output.clone(), output];
    let tx = transaction(&script, inputs, outputs);
    assert_eq!(tx.group_outputs.len(), 3);
    assert_eq!(validate(&tx), Ok(()));
}

#[test]
fn test_sudt_transfer() {
    let script = zero_args_script();
    let inputs = vec![input(out_point(1), token_cell(&script, 1u128.to_le_bytes().to_vec()))];
    let outputs = vec![token_cell(&script, 1u128.to_le_bytes().to_vec())];
    let tx = transaction(&script, inputs, outputs);
    assert_eq!(validate(&tx), Ok(()));
}

#[test]
fn test_sudt_transfer_high_value() {
    let script = zero_args_script();
    let data = 1_000_000_000u128.to_le_bytes().to_vec();
    let inputs = vec![input(out_point(1), token_cell(&script, data.clone()))];
    let outputs = vec![token_cell(&script, data)];
    let tx = transaction(&script, inputs, outputs);
    assert_eq!(validate(&tx), Ok(()));
}

#[test]
fn test_sudt_transfer_multiple() {
    let script = zero_args_script();
    let inputs = vec![
        input(out_point(1), token_cell(&script, 9000u128.to_le_bytes().to_vec())),
        input(out_point(2), token_cell(&script, 1_000_000u128.to_le_bytes().to_vec())),
    ];
    let outputs = vec![
        token_cell(&script, 9000u128.to_le_bytes().to_vec()),
        token_cell(&script, 1_000_000u128.to_le_bytes().to_vec()),
    ];
    let tx = transaction(&script, inputs, outputs);
    assert_eq!(validate(&tx), Ok(()));
}

#[test]
fn test_sudt_transfer_invalid_input_data() {
    let script = zero_args_script();
    let inputs = vec![input(out_point(1), token_cell(&script, 1u32.to_le_bytes().to_vec()))];
    let outputs = vec![token_cell(&script, 1u128.to_le_bytes().to_vec())];
    let tx = transaction(&script, inputs, outputs);
    assert_eq!(validate(&tx), Err(Error::Encoding));
}

#[test]
fn test_sudt_transfer_invalid_output_data() {
    let script = zero_args_script();
    let inputs = vec![input(out_point(1), token_cell(&script, 1u128.to_le_bytes().to_vec()))];
    let outputs = vec![token_cell(&script, 1u32.to_le_bytes().to_vec())];
    let tx = transaction(&script, inputs, outputs);
    assert_eq!(validate(&tx), Err(Error::Encoding));
}

#[test]
fn transfer_of_equal_balance_is_accepted() {
    let script = zero_args_script();
    let inputs = vec![token_cell(&script, 9_000u128.to_le_bytes().to_vec())];
    let outputs = vec![token_cell(&script, 9_000u128.to_le_bytes().to_vec())];
    assert_eq!(validate_transfer(&inputs, &outputs), Ok(()));
}

#[test]
fn merge_of_two_inputs_is_accepted() {
    let script = zero_args_script();
    let inputs = vec![
        input(out_point(1), token_cell(&script, 9_000u128.to_le_bytes().to_vec())),
        input(out_point(2), token_cell(&script, 1_000_000u128.to_le_bytes().to_vec())),
    ];
    let outputs = vec![token_cell(&script, 1_009_000u128.to_le_bytes().to_vec())];
    let tx = transaction(&script, inputs, outputs);
    assert_eq!(validate(&tx), Ok(()));
}

#[test]
fn split_into_two_outputs_is_accepted() {
    let script = zero_args_script();
    let inputs = vec![token_cell(&script, 10u128.to_le_bytes().to_vec())];
    let outputs = vec![
        token_cell(&script, 4u128.to_le_bytes().to_vec()),
        token_cell(&script, 6u128.to_le_bytes().to_vec()),
    ];
    assert_eq!(validate_transfer(&inputs, &outputs), Ok(()));
}

#[test]
fn partial_burn_is_accepted() {
    let script = zero_args_script();
    let inputs = vec![token_cell(&script, 10u128.to_le_bytes().to_vec())];
    let outputs = vec![token_cell(&script, 9u128.to_le_bytes().to_vec())];
    assert_eq!(validate_transfer(&inputs, &outputs), Ok(()));
}

#[test]
fn one_token_too_many_is_rejected() {
    let script = zero_args_script();
    let inputs = vec![input(out_point(1), token_cell(&script, 9_000u128.to_le_bytes().to_vec()))];
    let outputs = vec![token_cell(&script, 9_001u128.to_le_bytes().to_vec())];
    let tx = transaction(&script, inputs, outputs);
    assert_eq!(validate(&tx), Err(Error::Amount));
}

#[test]
fn four_byte_balance_is_rejected() {
    let script = zero_args_script();
    let inputs = vec![token_cell(&script, vec![1, 0, 0, 0])];
    let outputs: Vec<Cell> = vec![];
    assert_eq!(validate_transfer(&inputs, &outputs), Err(Error::Encoding));
}

#[test]
fn short_input_is_reported_before_excess_output() {
    let script = zero_args_script();
    let inputs = vec![token_cell(&script, vec![0; 15])];
    let outputs = vec![token_cell(&script, 5u128.to_le_bytes().to_vec())];
    assert_eq!(validate_transfer(&inputs, &outputs), Err(Error::Encoding));
}

#[test]
fn empty_data_is_rejected() {
    let script = zero_args_script();
    let cells = vec![token_cell(&script, 7u128.to_le_bytes().to_vec()), token_cell(&script, vec![])];
    assert_eq!(determine_token_amount(&cells), Err(Error::Encoding));
}

#[test]
fn bytes_after_the_balance_are_ignored() {
    let script = zero_args_script();
    let mut data = 77u128.to_le_bytes().to_vec();
    data.extend_from_slice(&[0xff; 9]);
    assert_eq!(read_token_amount(&data), Ok(77));
    let cells = vec![token_cell(&script, data)];
    assert_eq!(determine_token_amount(&cells), Ok(TokenSum { carries: 0, low: 77 }));
}

#[test]
fn balance_is_read_little_endian() {
    let mut data = vec![0u8; 16];
    data[0] = 0x28;
    data[1] = 0x23;
    assert_eq!(read_token_amount(&data), Ok(9_000));
    data[15] = 0x80;
    assert_eq!(read_token_amount(&data), Ok(9_000 + (1u128 << 127)));
    assert_eq!(read_token_amount(&u128::MAX.to_le_bytes()), Ok(u128::MAX));
    assert_eq!(read_token_amount(&data[..15]), Err(Error::Encoding));
}

#[test]
fn token_amount_of_no_cells_is_zero() {
    assert_eq!(determine_token_amount(&vec![]), Ok(TokenSum { carries: 0, low: 0 }));
}

#[test]
fn token_amount_sums_all_cells() {
    let script = zero_args_script();
    let cells = vec![
        token_cell(&script, 9_000u128.to_le_bytes().to_vec()),
        token_cell(&script, 1_000_000u128.to_le_bytes().to_vec()),
        token_cell(&script, 0u128.to_le_bytes().to_vec()),
    ];
    assert_eq!(determine_token_amount(&cells), Ok(TokenSum { carries: 0, low: 1_009_000 }));
}

#[test]
fn totals_beyond_a_balance_are_kept_exactly() {
    let script = zero_args_script();
    let max = token_cell(&script, u128::MAX.to_le_bytes().to_vec());
    let one = token_cell(&script, 1u128.to_le_bytes().to_vec());
    let cells = vec![max.clone(), max.clone(), one.clone()];
    assert_eq!(determine_token_amount(&cells), Ok(TokenSum { carries: 1, low: u128::MAX }));

    assert_eq!(validate_transfer(&vec![max.clone(), max.clone()], &vec![max.clone(), max.clone()]), Ok(()));
    assert_eq!(validate_transfer(&vec![max.clone(), one.clone()], &vec![max.clone()]), Ok(()));
    assert_eq!(
        validate_transfer(&vec![max.clone(), max.clone()], &vec![max.clone(), max.clone(), one.clone()]),
        Err(Error::Amount)
    );
    assert_eq!(validate_transfer(&vec![max.clone()], &vec![max, one]), Err(Error::Amount));
}

#[test]
fn mint_with_derived_identity_is_accepted() {
    let seed = OutPoint { tx_hash: [0xaa; 32], index: 0 };
    let script = type_script(calculate_instance_id(&seed, 0).to_vec());
    let cell = token_cell(&script, 5u128.to_le_bytes().to_vec());
    let inputs = vec![input(seed, plain_cell(vec![]))];
    assert_eq!(validate_create(&cell, &inputs), Ok(()));
}

#[test]
fn mint_with_other_identity_is_rejected() {
    let seed = OutPoint { tx_hash: [0xaa; 32], index: 0 };
    let script = type_script([0u8; 32].to_vec());
    let inputs = vec![input(seed, plain_cell(vec![]))];
    let outputs = vec![token_cell(&script, 5u128.to_le_bytes().to_vec())];
    let tx = transaction(&script, inputs, outputs);
    assert_eq!(validate(&tx), Err(Error::InvalidInstanceId));
}

#[test]
fn mint_identity_is_bound_to_the_first_input() {
    let first = OutPoint { tx_hash: [0xaa; 32], index: 0 };
    let second = OutPoint { tx_hash: [0xbb; 32], index: 0 };
    let script = type_script(calculate_instance_id(&second, 0).to_vec());
    let outputs = vec![token_cell(&script, 5u128.to_le_bytes().to_vec())];
    let inputs = vec![input(first, plain_cell(vec![])), input(second, plain_cell(vec![]))];
    let tx = transaction(&script, inputs, outputs.clone());
    assert_eq!(validate(&tx), Err(Error::InvalidInstanceId));
    let inputs = vec![input(second, plain_cell(vec![])), input(first, plain_cell(vec![]))];
    let tx = transaction(&script, inputs, outputs);
    assert_eq!(validate(&tx), Ok(()));
}

#[test]
fn mint_identity_is_for_output_index_zero() {
    let seed = OutPoint { tx_hash: [0xaa; 32], index: 0 };
    let script = type_script(calculate_instance_id(&seed, 1).to_vec());
    let cell = token_cell(&script, 5u128.to_le_bytes().to_vec());
    let inputs = vec![input(seed, plain_cell(vec![]))];
    assert_eq!(validate_create(&cell, &inputs), Err(Error::InvalidInstanceId));
}

#[test]
fn mint_does_not_inspect_balances() {
    let seed = OutPoint { tx_hash: [0xaa; 32], index: 3 };
    let script = type_script(calculate_instance_id(&seed, 0).to_vec());
    let inputs = vec![input(seed, plain_cell(vec![]))];
    let outputs = vec![token_cell(&script, vec![]), token_cell(&script, vec![1, 2, 3])];
    let tx = transaction(&script, inputs, outputs);
    assert_eq!(validate(&tx), Ok(()));
}

#[test]
fn mint_without_inputs_is_rejected() {
    let script = zero_args_script();
    let cell = token_cell(&script, 5u128.to_le_bytes().to_vec());
    assert_eq!(validate_create(&cell, &vec![]), Err(Error::IndexOutOfBound));
}

#[test]
fn mint_of_cell_without_type_script_is_rejected() {
    let seed = OutPoint { tx_hash: [0xaa; 32], index: 0 };
    let cell = plain_cell(5u128.to_le_bytes().to_vec());
    assert_eq!(validate_create(&cell, &vec![]), Err(Error::ItemMissing));
    let inputs = vec![input(seed, plain_cell(vec![]))];
    assert_eq!(validate_create(&cell, &inputs), Err(Error::ItemMissing));
}

#[test]
fn token_rejects_short_script_args_first() {
    let script = type_script(vec![0u8; 31]);
    let inputs = vec![input(out_point(1), token_cell(&script, vec![1]))];
    let outputs = vec![token_cell(&script, 9u128.to_le_bytes().to_vec())];
    let tx = transaction(&script, inputs, outputs);
    assert_eq!(validate(&tx), Err(Error::InvalidArgsLen));
    let tx = transaction(&type_script(vec![]), vec![], vec![]);
    assert_eq!(validate(&tx), Err(Error::InvalidArgsLen));
}

#[test]
fn longer_script_args_are_accepted() {
    let script = type_script(vec![7u8; 40]);
    let inputs = vec![input(out_point(1), token_cell(&script, 3u128.to_le_bytes().to_vec()))];
    let outputs = vec![token_cell(&script, 3u128.to_le_bytes().to_vec())];
    let tx = transaction(&script, inputs, outputs);
    assert_eq!(validate(&tx), Ok(()));
}

#[test]
fn empty_group_is_a_transfer_of_nothing() {
    let script = zero_args_script();
    let tx = transaction(&script, vec![input(out_point(1), plain_cell(vec![]))], vec![]);
    assert_eq!(validate(&tx), Ok(()));
}
