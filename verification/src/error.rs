use vstd::prelude::*;
use crate::events::OptionId;
use crate::value::Type;

verus! {

/// An error reported by a variable store.
#[derive(Debug, Clone, PartialEq)]
pub enum VariableStorageError {
    /// The store holds no value under the given name.
    VariableNotFound {
        /// The name that was looked up.
        name: String,
    },
    /// The store failed for a reason of its own.
    InternalError {
        /// The store's description of what went wrong.
        message: String,
    },
}

/// A contract violation in the compiled program or between the program and
/// the function registry. These abort the run; they indicate malformed
/// bytecode and are not meant to be recovered from.
#[derive(Debug, Clone, PartialEq)]
pub enum FatalError {
    /// An instruction needed more operands than the stack holds.
    StackUnderflow,
    /// An operand on the stack is not of the kind the instruction declares.
    WrongValueKind {
        /// The kind the instruction expected to find.
        expected: Type,
    },
    /// A number read as an index or count is negative or too large for the
    /// machine.
    InvalidNumericIndex,
    /// The declared argument count does not match the registered function.
    ParameterCountMismatch {
        /// The function that was called.
        function_name: String,
        /// The arity the registered function declares.
        expected: usize,
        /// The argument count the bytecode declared.
        actual: usize,
    },
    /// A variable was read that neither the store nor the program's declared
    /// initial values know.
    MissingInitialValue {
        /// The variable that was read.
        variable_name: String,
    },
    /// A reserved instruction variant was executed.
    UnsupportedInstruction,
    /// The program counter does not point at an instruction of the current
    /// node.
    ProgramCounterOutOfBounds,
    /// The run executed more instructions than the machine is willing to
    /// drive in one call.
    StepLimitReached,
}

/// An error reported to the host from one of the machine's entry points.
#[derive(Debug, Clone, PartialEq)]
pub enum DialogueError {
    /// No program has been installed.
    NoProgramLoaded,
    /// The named node is not part of the installed program.
    InvalidNode {
        /// The name that was looked up.
        node_name: String,
    },
    /// The machine was asked to continue with no node selected.
    NoNodeSelectedOnContinue,
    /// The machine was asked to continue while it waits for an option
    /// selection.
    ContinueOnOptionSelectionError,
    /// An option was selected while the machine was not waiting for one.
    UnexpectedOptionSelectionError,
    /// The selected option id lies outside the current batch.
    InvalidOptionIdError {
        /// The id that was selected.
        selected_option_id: OptionId,
        /// The largest id the current batch offers (zero when it is empty).
        max_id: usize,
    },
    /// The called function is not registered. The snapshot of the registry
    /// carried here is the list of its registered names, not the callables
    /// themselves: it is what a host can act on, and it keeps the error
    /// independent of the registry's function type.
    FunctionNotFound {
        /// The function the bytecode called.
        function_name: String,
        /// The names the registry held at the time of the call.
        library: Vec<String>,
    },
    /// The variable store reported an error.
    VariableStorageError(VariableStorageError),
    /// The compiled program violated the machine's contract; the run is
    /// aborted.
    Fatal(FatalError),
}

} // verus!
