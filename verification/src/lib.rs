//! An embeddable interpreter for compiled interactive-dialogue programs: a
//! virtual machine that executes dialogue bytecode one node at a time and
//! yields batches of observable events (lines to show, options to present,
//! commands to run, node transitions) that a host application drives forward.
//!
//! The machine owns its run state — an instruction pointer, an operand stack
//! of typed values and an accumulating option list — and consumes two host
//! capabilities through narrow interfaces: a [`VariableStorage`] for named
//! variables and a [`Library`] of registered functions. Events are buffered
//! and released as one batch at each suspension point, never incrementally.

mod assoc;
mod error;
mod events;
mod library;
mod markup;
mod position;
mod program;
mod storage;
mod text;

mod value;
mod virtual_machine;

pub use error::{DialogueError, FatalError, VariableStorageError};
pub use events::{Command, DialogueEvent, DialogueOption, EventV, Line, LineId, OptionId};
pub use events::events_view;
pub use library::{ArgumentValues, Library, ParameterKinds, UntypedYarnFn};
pub use markup::{nfc_of, normalize};
pub use position::Position;
pub use program::{Instruction, Node, Program};
pub use program::{has_node, node_names_unique, same_node};
pub use storage::{MemoryVariableStorage, VariableStorage};
pub use text::{decimal, digit_char, format_usize, placeholder, replace_all, spec_replace, splice_from, splice_substitutions, spliced, starts_with};
pub use value::{InternalValue, Type, YarnValue};
pub use value::number_as_index;
pub use virtual_machine::{ExecutionState, State, VirtualMachine, STEP_LIMIT};
pub use virtual_machine::options_ids_sequential;
