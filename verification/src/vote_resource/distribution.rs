//! The distribution build of the vote resource script.
//!
//! The data of the cell names a token and declares how many of its tokens
//! are handed out. The cell is created only in a transaction whose
//! outputs hold exactly that many tokens: no supply is claimed that was
//! not minted alongside, and no mint exceeds the claim. The build has no
//! transfer.

use vstd::prelude::*;
use crate::amount::TokenSum;
use crate::error::Error;
use crate::layout::{bytes_equal, field, le_value, lemma_le_value_bound, lemma_pow256_values,
    read_hash, read_u128_le, validate_length};
use crate::mode::{determine_mode, resolve_mode, Mode};
use crate::token::{read_token_amount, token_amount};
use crate::types::{Cell, CellSpec, HashType, Input, InputSpec, TransactionSpec,
    TransactionView, cells_view, inputs_view};
use crate::vote_resource::{creation_outcome, validate_creation, ARGS_LEN};

verus! {

/// The number of bytes of the data of a resource cell.
pub const DATA_LEN: usize = 82;

/// Where the code hash of the token starts.
pub const TOKEN_CODE_HASH_OFFSET: usize = 0;

/// Where the vote title starts.
pub const VOTE_TITLE_OFFSET: usize = 32;

/// Where the declared supply starts.
pub const TOTAL_DISTRIBUTED_TOKENS_OFFSET: usize = 64;

/// Where the flag starts that tells whether voting is over.
pub const IS_VOTING_FINISHED_OFFSET: usize = 80;

/// Where the winning option starts.
pub const VOTE_RESULT_OPTION_OFFSET: usize = 81;

/// The fields of the data of a resource cell.
#[derive(Debug, Clone, Copy, PartialEq, Eq)]
pub struct VoteResourceData {
    /// The code hash of the token that votes are cast with.
    pub token_code_hash: [u8; 32],
    /// The title of the vote.
    pub vote_title: [u8; 32],
    /// The declared supply of tokens.
    pub total_distributed_tokens: u128,
    /// Zero while votes are cast, one after; the creation rules do not
    /// inspect it.
    pub is_voting_finished: u8,
    /// The winning option; the creation rules do not inspect it.
    pub vote_result_option: u8,
}

/// The code hash that resource data of full length names.
pub open spec fn declared_token(data: Seq<u8>) -> Seq<u8> {
    field(data, 0, 32)
}

/// The supply that resource data of full length declares.
pub open spec fn declared_total(data: Seq<u8>) -> nat {
    le_value(field(data, 64, 16))
}

/// Whether `data` decodes to `fields`.
pub open spec fn decodes_to(data: Seq<u8>, fields: VoteResourceData) -> bool {
    &&& data.len() == 82
    &&& fields.token_code_hash@ == declared_token(data)
    &&& fields.vote_title@ == field(data, 32, 32)
    &&& fields.total_distributed_tokens == declared_total(data)
    &&& fields.is_voting_finished == data[80]
    &&& fields.vote_result_option == data[81]
}

/// Whether `cell` is a cell of the token with the code hash `token`: its
/// type script names that hash as the hash of its code.
pub open spec fn is_token_cell(cell: CellSpec, token: Seq<u8>) -> bool {
    match cell.type_script {
        Some(script) => script.hash_type == HashType::Data && script.code_hash == token,
        None => false,
    }
}

/// Whether every cell of the token among `outputs` has data long enough
/// to hold a balance.
pub open spec fn distribution_encoded(outputs: Seq<CellSpec>, token: Seq<u8>) -> bool {
    forall|i: int|
        0 <= i < outputs.len() && is_token_cell(#[trigger] outputs[i], token)
            ==> outputs[i].data.len() >= 16
}

/// The total of the balances of the cells of the token among `outputs`.
pub open spec fn distributed_total(outputs: Seq<CellSpec>, token: Seq<u8>) -> nat
    decreases outputs.len(),
{
    if outputs.len() == 0 {
        0
    } else {
        distributed_total(outputs.drop_last(), token) + if is_token_cell(outputs.last(), token) {
            token_amount(outputs.last().data)
        } else {
            0
        }
    }
}

/// The verdict on the data of a created cell against all outputs of the
/// transaction, the cell's own group or not.
pub open spec fn distribution_outcome(data: Seq<u8>, outputs: Seq<CellSpec>) -> Result<
    (),
    Error,
> {
    if data.len() != 82 {
        Err(Error::InvalidDataBytesize)
    } else if !distribution_encoded(outputs, declared_token(data)) {
        Err(Error::Encoding)
    } else if distributed_total(outputs, declared_token(data)) != declared_total(data) {
        Err(Error::TokenDistributionMismatch)
    } else {
        Ok(())
    }
}

/// The verdict on a created cell: shape and identity, then the declared
/// supply.
pub open spec fn create_outcome(
    cell: CellSpec,
    inputs: Seq<InputSpec>,
    outputs: Seq<CellSpec>,
) -> Result<(), Error> {
    if creation_outcome(cell, inputs) is Err {
        creation_outcome(cell, inputs)
    } else {
        distribution_outcome(cell.data, outputs)
    }
}

/// The verdict of the distribution build on a transaction.
pub open spec fn outcome(tx: TransactionSpec) -> Result<(), Error> {
    if tx.script.args.len() < 32 {
        Err(Error::InvalidArgsLength)
    } else {
        match resolve_mode(tx.group_inputs.len(), tx.group_outputs.len()) {
            Ok(Mode::Burn) => Ok(()),
            Ok(Mode::Create) => create_outcome(tx.group_outputs[0], tx.inputs, tx.outputs),
            Ok(Mode::Transfer) => Err(Error::InvalidTransactionStructure),
            Err(e) => Err(e),
        }
    }
}

/// A total grows with each output that is scanned.
pub proof fn lemma_distributed_total_prefix(outputs: Seq<CellSpec>, token: Seq<u8>, n: int)
    requires
        0 <= n < outputs.len(),
    ensures
        distributed_total(outputs.take(n + 1), token) == distributed_total(
            outputs.take(n),
            token,
        ) + if is_token_cell(outputs[n], token) {
            token_amount(outputs[n].data)
        } else {
            0
        },
{
    assert(outputs.take(n + 1).drop_last() =~= outputs.take(n));
}

/// Conservation of the declared supply: with data of full length and
/// every token output encoded, the data is accepted exactly if the token
/// outputs of the transaction hold the declared supply, and any other
/// total, be it one token more or one less, is rejected as
/// `TokenDistributionMismatch`.
pub proof fn lemma_distribution_conservation(data: Seq<u8>, outputs: Seq<CellSpec>)
    requires
        data.len() == 82,
        distribution_encoded(outputs, declared_token(data)),
    ensures
        distribution_outcome(data, outputs) is Ok <==> distributed_total(
            outputs,
            declared_token(data),
        ) == declared_total(data),
        distributed_total(outputs, declared_token(data)) != declared_total(data)
            ==> distribution_outcome(data, outputs) == Err::<(), Error>(
            Error::TokenDistributionMismatch,
        ),
{
}

/// Conservation at the creation of a cell: a cell of sound shape and
/// identity, with data of full length, in a transaction whose token
/// outputs are all encoded, is accepted exactly if those outputs hold the
/// declared supply.
pub proof fn lemma_creation_succeeds_iff_supply_matches(
    cell: CellSpec,
    inputs: Seq<InputSpec>,
    outputs: Seq<CellSpec>,
)
    requires
        creation_outcome(cell, inputs) is Ok,
        cell.data.len() == 82,
        distribution_encoded(outputs, declared_token(cell.data)),
    ensures
        create_outcome(cell, inputs, outputs) is Ok <==> distributed_total(
            outputs,
            declared_token(cell.data),
        ) == declared_total(cell.data),
        create_outcome(cell, inputs, outputs) is Err ==> create_outcome(cell, inputs, outputs)
            == Err::<(), Error>(Error::TokenDistributionMismatch),
{
}

/// A created cell is accepted only with the declared supply among the
/// outputs of its transaction.
pub proof fn lemma_accepted_creation_conserves(
    cell: CellSpec,
    inputs: Seq<InputSpec>,
    outputs: Seq<CellSpec>,
)
    requires
        create_outcome(cell, inputs, outputs) is Ok,
    ensures
        cell.data.len() == 82,
        distributed_total(outputs, declared_token(cell.data)) == declared_total(cell.data),
{
}

/// A cell is destroyed without a look at its data: with args of full
/// length, one group input and no group output, the build accepts.
pub proof fn lemma_burn_is_exempt(tx: TransactionSpec)
    requires
        tx.script.args.len() >= 32,
        tx.group_inputs.len() == 1,
        tx.group_outputs.len() == 0,
    ensures
        outcome(tx) == Ok::<(), Error>(()),
{
}

impl VoteResourceData {
    /// Decodes the data of a resource cell, which must be exactly
    /// [`DATA_LEN`] bytes long.
    pub fn parse(data: &[u8]) -> (r: Result<VoteResourceData, Error>)
        ensures
            data@.len() == 82 ==> r is Ok && decodes_to(data@, r.unwrap()),
            data@.len() != 82 ==> r == Err::<VoteResourceData, Error>(Error::InvalidDataBytesize),
    {
        if !validate_length(data, DATA_LEN) {
            return Err(Error::InvalidDataBytesize);
        }
        proof {
            lemma_le_value_bound(field(data@, 64, 16));
            lemma_pow256_values();
        }
        Ok(
            VoteResourceData {
                token_code_hash: read_hash(data, TOKEN_CODE_HASH_OFFSET),
                vote_title: read_hash(data, VOTE_TITLE_OFFSET),
                total_distributed_tokens: read_u128_le(data, TOTAL_DISTRIBUTED_TOKENS_OFFSET),
                is_voting_finished: data[IS_VOTING_FINISHED_OFFSET],
                vote_result_option: data[VOTE_RESULT_OPTION_OFFSET],
            },
        )
    }
}

/// Whether `cell` is a cell of the token with the code hash `token`.
pub fn holds_token(cell: &Cell, token: &[u8; 32]) -> (r: bool)
    ensures
        r == is_token_cell(cell@, token@),
{
    match &cell.type_script {
        Some(script) => {
            match script.hash_type {
                HashType::Data => bytes_equal(script.code_hash.as_slice(), token.as_slice()),
                HashType::Type => false,
            }
        },
        None => false,
    }
}

/// Counts the tokens with the code hash `token` that `outputs` hold.
pub fn determine_distributed_amount(outputs: &Vec<Cell>, token: &[u8; 32]) -> (r: Result<
    TokenSum,
    Error,
>)
    ensures
        distribution_encoded(cells_view(outputs@), token@) ==> r is Ok && r.unwrap().value()
            == distributed_total(cells_view(outputs@), token@),
        !distribution_encoded(cells_view(outputs@), token@) ==> r == Err::<TokenSum, Error>(
            Error::Encoding,
        ),
{
    let ghost view = cells_view(outputs@);
    let mut total = TokenSum::zero();
    let mut i: usize = 0;
    while i < outputs.len()
        invariant
            i <= outputs@.len(),
            view == cells_view(outputs@),
            total.carries <= i,
            total.value() == distributed_total(view.take(i as int), token@),
            distribution_encoded(view.take(i as int), token@),
        decreases outputs@.len() - i,
    {
        let cell = &outputs[i];
        assert(view[i as int] == cell@);
        if holds_token(cell, token) {
            match read_token_amount(cell.data.as_slice()) {
                Ok(amount) => {
                    total = total.plus(amount);
                },
                Err(e) => {
                    return Err(e);
                },
            }
        }
        proof {
            lemma_distributed_total_prefix(view, token@, i as int);
            assert forall|j: int|
                0 <= j < i + 1 && is_token_cell(
                    #[trigger] view.take(i + 1)[j],
                    token@,
                ) implies view.take(i + 1)[j].data.len() >= 16 by {
                if j < i {
                    assert(view.take(i as int)[j] == view.take(i + 1)[j]);
                }
            }
        }
        i += 1;
    }
    assert(view.take(i as int) =~= view);
    Ok(total)
}

/// Validates the data of a created cell against all outputs of the
/// transaction.
pub fn validate_distribution(data: &[u8], outputs: &Vec<Cell>) -> (r: Result<(), Error>)
    ensures
        r == distribution_outcome(data@, cells_view(outputs@)),
{
    let fields = match VoteResourceData::parse(data) {
        Ok(fields) => fields,
        Err(e) => {
            return Err(e);
        },
    };
    let tokens_distributed = match determine_distributed_amount(outputs, &fields.token_code_hash) {
        Ok(total) => total,
        Err(e) => {
            return Err(e);
        },
    };
    if !tokens_distributed.equals(fields.total_distributed_tokens) {
        return Err(Error::TokenDistributionMismatch);
    }
    Ok(())
}

/// Validates the creation of `cell`, the cell of the group, in a
/// transaction with the given inputs and outputs.
pub fn validate_create(cell: &Cell, inputs: &Vec<Input>, outputs: &Vec<Cell>) -> (r: Result<
    (),
    Error,
>)
    ensures
        r == create_outcome(cell@, inputs_view(inputs@), cells_view(outputs@)),
{
    match validate_creation(cell, inputs) {
        Ok(()) => {},
        Err(e) => {
            return Err(e);
        },
    }
    validate_distribution(cell.data.as_slice(), outputs)
}

/// Runs the distribution build on a transaction.
pub fn validate(tx: &TransactionView) -> (r: Result<(), Error>)
    ensures
        r == outcome(tx@),
{
    if tx.script.args.len() < ARGS_LEN {
        return Err(Error::InvalidArgsLength);
    }
    match determine_mode(tx.group_inputs.len(), tx.group_outputs.len()) {
        Ok(Mode::Burn) => Ok(()),
        Ok(Mode::Create) => validate_create(&tx.group_outputs[0], &tx.inputs, &tx.outputs),
        Ok(Mode::Transfer) => Err(Error::InvalidTransactionStructure),
        Err(e) => Err(e),
    }
}

} // verus!
