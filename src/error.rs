//! Errors of measurement inputs, evaluation and quantum programs.
use vstd::prelude::*;

verus! {

/// A failure of building a measurement input, evaluating registers or running a program.
#[derive(Debug, Clone, PartialEq, Eq)]
pub enum QoqoError {
    /// The number of parameters handed to a program differs from its declared names.
    ParameterCountMismatch { expected: usize, given: usize },
    /// A readout register that a Pauli product refers to is not among the registers.
    UnknownRegisterName { name: String },
    /// A qubit index is not below the bound of the input or of the register shot.
    QubitIndexOutOfRange { index: usize, bound: usize },
    /// An expectation value name is declared twice in one measurement input.
    DuplicateResultName { name: String },
    /// A linear combination refers to a Pauli product that the input does not declare.
    UndeclaredProductIndex { index: usize },
    /// A formula refers to a Pauli-product variable that the input does not declare.
    UndeclaredFormulaVariable { name: String },
    /// An integer bit register holds a value other than 0 or 1.
    InvalidBitValue { value: u64 },
    /// `run` was called on a register program, or `run_registers` on another one.
    WrongExecutionEntryPoint,
    /// A measurement tag names no measurement kind.
    UnknownMeasurementKind,
    /// Two version identifiers differ in their first two components.
    VersionMismatch,
}

} // verus!
