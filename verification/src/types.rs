//! The ledger data that the scripts read, as plain values, and the
//! mathematical view of each.

use vstd::prelude::*;

verus! {

/// The locator of a ledger entry that a transaction consumes: the hash of
/// the transaction that created it and its position among that
/// transaction's outputs.
#[derive(Debug, Clone, Copy, PartialEq, Eq)]
pub struct OutPoint {
    pub tx_hash: [u8; 32],
    pub index: u32,
}

/// How the code hash of a script identifies its code.
#[derive(Debug, Clone, Copy, PartialEq, Eq, Structural)]
pub enum HashType {
    /// By the hash of the executable bytes.
    Data,
    /// By the type identity of the cell that holds the code.
    Type,
}

/// A script attached to a cell, as its lock or as its type.
#[derive(Debug, Clone, PartialEq, Eq)]
pub struct Script {
    pub code_hash: [u8; 32],
    pub hash_type: HashType,
    pub args: Vec<u8>,
}

/// The ledger's unit of value.
#[derive(Debug, Clone, PartialEq, Eq)]
pub struct Cell {
    pub capacity: u64,
    pub data: Vec<u8>,
    pub lock: Script,
    pub type_script: Option<Script>,
}

/// An input of a transaction: the entry it consumes and the cell found
/// there.
#[derive(Debug, Clone, PartialEq, Eq)]
pub struct Input {
    pub previous_output: OutPoint,
    pub cell: Cell,
}

/// What one invocation of a script sees of its transaction. The group
/// cells are those inputs and outputs that carry the executing script;
/// the host selects them.
#[derive(Debug, Clone, PartialEq, Eq)]
pub struct TransactionView {
    pub script: Script,
    pub inputs: Vec<Input>,
    pub outputs: Vec<Cell>,
    pub group_inputs: Vec<Cell>,
    pub group_outputs: Vec<Cell>,
}

/// The view of an [`OutPoint`].
pub struct OutPointSpec {
    pub tx_hash: Seq<u8>,
    pub index: u32,
}

/// The view of a [`Script`].
pub struct ScriptSpec {
    pub code_hash: Seq<u8>,
    pub hash_type: HashType,
    pub args: Seq<u8>,
}

/// The view of a [`Cell`].
pub struct CellSpec {
    pub capacity: u64,
    pub data: Seq<u8>,
    pub lock: ScriptSpec,
    pub type_script: Option<ScriptSpec>,
}

/// The view of an [`Input`].
pub struct InputSpec {
    pub previous_output: OutPointSpec,
    pub cell: CellSpec,
}

/// The view of a [`TransactionView`].
pub struct TransactionSpec {
    pub script: ScriptSpec,
    pub inputs: Seq<InputSpec>,
    pub outputs: Seq<CellSpec>,
    pub group_inputs: Seq<CellSpec>,
    pub group_outputs: Seq<CellSpec>,
}

impl View for OutPoint {
    type V = OutPointSpec;

    open spec fn view(&self) -> OutPointSpec {
        OutPointSpec { tx_hash: self.tx_hash@, index: self.index }
    }
}

impl View for Script {
    type V = ScriptSpec;

    open spec fn view(&self) -> ScriptSpec {
        ScriptSpec { code_hash: self.code_hash@, hash_type: self.hash_type, args: self.args@ }
    }
}

/// The view of an optional script.
pub open spec fn script_option_view(script: Option<Script>) -> Option<ScriptSpec> {
    match script {
        Some(s) => Some(s@),
        None => None,
    }
}

impl View for Cell {
    type V = CellSpec;

    open spec fn view(&self) -> CellSpec {
        CellSpec {
            capacity: self.capacity,
            data: self.data@,
            lock: self.lock@,
            type_script: script_option_view(self.type_script),
        }
    }
}

impl View for Input {
    type V = InputSpec;

    open spec fn view(&self) -> InputSpec {
        InputSpec { previous_output: self.previous_output@, cell: self.cell@ }
    }
}

/// The views of a sequence of cells, in order.
pub open spec fn cells_view(cells: Seq<Cell>) -> Seq<CellSpec> {
    Seq::new(cells.len(), |i: int| cells[i]@)
}

/// The views of a sequence of inputs, in order.
pub open spec fn inputs_view(inputs: Seq<Input>) -> Seq<InputSpec> {
    Seq::new(inputs.len(), |i: int| inputs[i]@)
}

impl View for TransactionView {
    type V = TransactionSpec;

    open spec fn view(&self) -> TransactionSpec {
        TransactionSpec {
            script: self.script@,
            inputs: inputs_view(self.inputs@),
            outputs: cells_view(self.outputs@),
            group_inputs: cells_view(self.group_inputs@),
            group_outputs: cells_view(self.group_outputs@),
        }
    }
}

} // verus!
