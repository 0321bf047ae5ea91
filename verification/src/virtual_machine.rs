use vstd::prelude::*;
use vstd::pervasive::unreached;
use crate::assoc::{assoc_get, assoc_map};
use crate::error::{DialogueError, FatalError, VariableStorageError};
use crate::events::{
    events_view, lemma_events_view_push, Command, DialogueEvent, DialogueOption, EventV, Line,
    LineId, OptionId,
};
use crate::library::{Library, UntypedYarnFn};
use crate::program::{has_node, Instruction, Node, Program};
use crate::storage::VariableStorage;
use crate::text::{spliced, splice_substitutions};
use crate::value::{number_as_index, InternalValue, Type, YarnValue};

verus! {

/// Governs whether the machine may advance, and what made it stop advancing.
#[derive(Debug, Clone, Copy, PartialEq, Eq, Structural)]
pub enum ExecutionState {
    /// No run is in progress.
    Stopped,
    /// The dispatch loop is draining instructions.
    Running,
    /// A line or command was delivered; the host must continue.
    WaitingForContinue,
    /// Options were delivered; the host must select one before continuing.
    WaitingOnOptionSelection,
}

/// The machine's per-run mutable state, created fresh whenever a node is
/// selected.
#[derive(Debug, Clone, PartialEq)]
pub struct State {
    /// The index of the instruction about to execute.
    pub program_counter: usize,
    /// The operand stack, last element on top.
    pub stack: Vec<InternalValue>,
    /// The options accumulated since the last batch was delivered.
    pub current_options: Vec<DialogueOption>,
}

impl State {
    /// A fresh run state: counter at zero, nothing on the stack, no options.
    pub open spec fn is_fresh(&self) -> bool {
        &&& self.program_counter == 0
        &&& self.stack@.len() == 0
        &&& self.current_options@.len() == 0
    }

    /// A fresh run state.
    pub fn new() -> (r: Self)
        ensures
            r.is_fresh(),
    {
        State { program_counter: 0, stack: Vec::new(), current_options: Vec::new() }
    }
}

/// The ids of an option batch count up from zero in insertion order.
pub open spec fn options_ids_sequential(opts: Seq<DialogueOption>) -> bool {
    forall|i: int| 0 <= i < opts.len() ==> opts[i].id.0 == i
}

/// How many instructions one call of [`VirtualMachine::continue_`] is
/// willing to drive before it gives the run up as stuck.
pub const STEP_LIMIT: usize = 1000000;

/// The instruction dispatcher: interprets one instruction at a time against
/// the stack, the variables and the function registry, advances or redirects
/// the program counter, and buffers events which it releases as a batch at
/// each suspension point.
#[derive(Debug)]
pub struct VirtualMachine<V: VariableStorage, F: UntypedYarnFn> {
    /// The function registry consulted by call instructions.
    pub library: Library<F>,
    /// The installed program, if any.
    pub program: Option<Program>,
    /// The store consulted by variable instructions.
    pub variable_storage: V,
    /// The name of the selected node, if any.
    pub current_node_name: Option<String>,
    /// The per-run mutable state.
    pub state: State,
    /// Whether the machine may advance.
    pub execution_state: ExecutionState,
    /// The machine's own copy of the selected node, if any.
    pub current_node: Option<Node>,
    /// Events buffered since the last suspension point.
    pub batched_events: Vec<DialogueEvent>,
}

impl<V: VariableStorage, F: UntypedYarnFn> VirtualMachine<V, F> {
    /// The buffered events, as ghost images.
    pub open spec fn ev(self) -> Seq<EventV> {
        events_view(self.batched_events@)
    }

    /// The operand stack.
    pub open spec fn stk(self) -> Seq<InternalValue> {
        self.state.stack@
    }

    /// The accumulated options.
    pub open spec fn opts(self) -> Seq<DialogueOption> {
        self.state.current_options@
    }

    /// The stored variables.
    pub open spec fn vars(self) -> Map<Seq<char>, YarnValue> {
        self.variable_storage.variables()
    }

    /// The program counter.
    pub open spec fn pc(self) -> int {
        self.state.program_counter as int
    }

    /// The machine's well-formedness: the store and the registry meet their
    /// own invariants, the installed program has unique names, and the
    /// accumulated options are numbered in insertion order.
    pub open spec fn wf(self) -> bool {
        &&& self.variable_storage.inv()
        &&& self.library.wf()
        &&& (self.program matches Some(p) ==> p.wf())
        &&& options_ids_sequential(self.opts())
    }

    /// Neither the registry nor the program changed.
    pub open spec fn installation_unchanged(pre: Self, post: Self) -> bool {
        &&& post.library == pre.library
        &&& post.program == pre.program
    }

    /// The selected node and its name did not change.
    pub open spec fn selection_unchanged(pre: Self, post: Self) -> bool {
        &&& post.current_node == pre.current_node
        &&& post.current_node_name == pre.current_node_name
    }

    /// A fresh machine: nothing installed, nothing selected, stopped.
    pub fn new(library: Library<F>, variable_storage: V) -> (r: Self)
        ensures
            r.library == library,
            r.variable_storage == variable_storage,
            r.program is None,
            r.current_node_name is None,
            r.current_node is None,
            r.state.is_fresh(),
            r.execution_state == ExecutionState::Stopped,
            r.batched_events@.len() == 0,
    {
        VirtualMachine {
            library,
            program: None,
            variable_storage,
            current_node_name: None,
            state: State::new(),
            execution_state: ExecutionState::Stopped,
            current_node: None,
            batched_events: Vec::new(),
        }
    }

    /// The variable store, for the host to inspect.
    pub fn variable_storage(&self) -> (r: &V)
        ensures
            *r == self.variable_storage,
    {
        &self.variable_storage
    }

    /// The variable store, for the host to manipulate.
    pub fn variable_storage_mut(&mut self) -> (r: &mut V)
        ensures
            *r == old(self).variable_storage,
            final(self).variable_storage == *final(r),
            Self::installation_unchanged(*old(self), *final(self)),
            final(self).current_node == old(self).current_node,
            final(self).current_node_name == old(self).current_node_name,
            final(self).state == old(self).state,
            final(self).execution_state == old(self).execution_state,
            final(self).batched_events == old(self).batched_events,
    {
        &mut self.variable_storage
    }

    /// Discards the run state and the node selection.
    pub fn reset_state(&mut self)
        ensures
            final(self).state.is_fresh(),
            final(self).current_node_name is None,
            Self::installation_unchanged(*old(self), *final(self)),
            final(self).variable_storage == old(self).variable_storage,
            final(self).execution_state == old(self).execution_state,
            final(self).current_node == old(self).current_node,
            final(self).batched_events == old(self).batched_events,
    {
        self.state = State::new();
        self.current_node_name = None;
    }

    /// Moves the machine to the given execution state; moving it to
    /// `Stopped` also discards the run state and the node selection.
    pub fn set_execution_state(&mut self, execution_state: ExecutionState)
        ensures
            final(self).execution_state == execution_state,
            Self::installation_unchanged(*old(self), *final(self)),
            final(self).variable_storage == old(self).variable_storage,
            final(self).current_node == old(self).current_node,
            final(self).batched_events == old(self).batched_events,
            execution_state == ExecutionState::Stopped ==> final(self).state.is_fresh()
                && final(self).current_node_name is None,
            execution_state != ExecutionState::Stopped ==> final(self).state == old(self).state
                && final(self).current_node_name == old(self).current_node_name,
    {
        self.execution_state = execution_state;
        if execution_state == ExecutionState::Stopped {
            self.reset_state();
        }
    }

    /// Forces the machine to stop: appends a final dialogue-complete event
    /// and hands the whole batch out. The node-complete event is not
    /// emitted; selecting a node again starts afresh.
    pub fn stop(&mut self) -> (r: Vec<DialogueEvent>)
        ensures
            events_view(r@) == old(self).ev().push(EventV::DialogueComplete),
            final(self).execution_state == ExecutionState::Stopped,
            final(self).state.is_fresh(),
            final(self).current_node_name is None,
            final(self).current_node == old(self).current_node,
            final(self).batched_events@.len() == 0,
            Self::installation_unchanged(*old(self), *final(self)),
            final(self).variable_storage == old(self).variable_storage,
    {
        self.set_execution_state(ExecutionState::Stopped);
        proof {
            lemma_events_view_push(self.batched_events@, DialogueEvent::DialogueComplete);
        }
        self.batched_events.push(DialogueEvent::DialogueComplete);
        let mut out: Vec<DialogueEvent> = Vec::new();
        core::mem::swap(&mut out, &mut self.batched_events);
        out
    }

    /// Looks a node of the installed program up by name.
    pub fn get_node_from_name<'a>(&'a self, node_name: &str) -> (r: Result<
        &'a Node,
        DialogueError,
    >)
        ensures
            self.program is None ==> r == Err::<&'a Node, DialogueError>(
                DialogueError::NoProgramLoaded,
            ),
            self.program matches Some(p) ==> {
                &&& !has_node(p.nodes@, node_name@) ==> (r matches Err(e)
                    && e matches DialogueError::InvalidNode { node_name: m } && m@ == node_name@)
                &&& has_node(p.nodes@, node_name@) ==> (r matches Ok(n) && n.name@ == node_name@
                    && (exists|i: int| 0 <= i < p.nodes@.len() && p.nodes@[i] == *n))
            },
    {
        match &self.program {
            None => Err(DialogueError::NoProgramLoaded),
            Some(program) => match program.node_with_name(node_name) {
                Some(node) => Ok(node),
                None => Err(DialogueError::InvalidNode { node_name: node_name.to_owned() }),
            },
        }
    }

    /// What a successful node selection leaves behind: the named node of the
    /// installed program copied in, a fresh run state, and a node-start
    /// event appended; the execution state is not changed by itself.
    pub open spec fn set_node_ok(pre: Self, post: Self, name: Seq<char>) -> bool {
        &&& Self::installation_unchanged(pre, post)
        &&& post.variable_storage == pre.variable_storage
        &&& post.execution_state == pre.execution_state
        &&& (post.current_node matches Some(n) && n.name@ == name && (pre.program matches Some(p)
            && exists|i: int|
            0 <= i < p.nodes@.len() && p.nodes@[i].name@ == name && p.nodes@[i].instructions@
                == n.instructions@))
        &&& (post.current_node_name matches Some(s) && s@ == name)
        &&& post.state.is_fresh()
        &&& post.ev() == pre.ev().push(EventV::NodeStart(name))
    }

    /// Selects the node to run: fails when no program is installed or the
    /// name is unknown, and otherwise resets the run state, records the node
    /// and emits a node-start event.
    pub fn set_node(&mut self, node_name: &str) -> (r: Result<(), DialogueError>)
        ensures
            old(self).program is None ==> r == Err::<(), DialogueError>(
                DialogueError::NoProgramLoaded,
            ) && *final(self) == *old(self),
            old(self).program matches Some(p) ==> {
                &&& !has_node(p.nodes@, node_name@) ==> (r matches Err(e)
                    && e matches DialogueError::InvalidNode { node_name: m } && m@ == node_name@)
                    && *final(self) == *old(self)
                &&& has_node(p.nodes@, node_name@) ==> r is Ok && Self::set_node_ok(
                    *old(self),
                    *final(self),
                    node_name@,
                )
            },
    {
        let node_copy = {
            let node = match self.get_node_from_name(node_name) {
                Ok(node) => node,
                Err(e) => {
                    return Err(e);
                },
            };
            node.duplicate()
        };
        self.current_node = Some(node_copy);
        self.reset_state();
        self.current_node_name = Some(node_name.to_owned());
        let start_event = DialogueEvent::NodeStart(node_name.to_owned());
        proof {
            lemma_events_view_push(self.batched_events@, start_event);
        }
        self.batched_events.push(start_event);
        Ok(())
    }

    /// Uninstalls the program; any in-flight run keeps its copied node.
    pub fn unload_programs(&mut self)
        ensures
            final(self).program is None,
            final(self).library == old(self).library,
            final(self).variable_storage == old(self).variable_storage,
            final(self).current_node == old(self).current_node,
            final(self).current_node_name == old(self).current_node_name,
            final(self).state == old(self).state,
            final(self).execution_state == old(self).execution_state,
            final(self).batched_events == old(self).batched_events,
    {
        self.program = None;
    }

    /// Whether continuing is legal: a node must be selected and the machine
    /// must not be waiting for an option selection.
    pub fn assert_can_continue(&self) -> (r: Result<(), DialogueError>)
        ensures
            (self.current_node is None || self.current_node_name is None) ==> r == Err::<
                (),
                DialogueError,
            >(DialogueError::NoNodeSelectedOnContinue),
            (self.current_node is Some && self.current_node_name is Some
                && self.execution_state == ExecutionState::WaitingOnOptionSelection) ==> r == Err::<
                (),
                DialogueError,
            >(DialogueError::ContinueOnOptionSelectionError),
            (self.current_node is Some && self.current_node_name is Some
                && self.execution_state != ExecutionState::WaitingOnOptionSelection) ==> r is Ok,
    {
        if self.current_node.is_none() || self.current_node_name.is_none() {
            Err(DialogueError::NoNodeSelectedOnContinue)
        } else if self.execution_state == ExecutionState::WaitingOnOptionSelection {
            Err(DialogueError::ContinueOnOptionSelectionError)
        } else {
            Ok(())
        }
    }

    /// Reports the selected option: legal only while the machine waits for
    /// one and the id lies within the last-produced batch. On success the
    /// chosen option's destination is pushed for the next jump to consume,
    /// the batch is cleared, and the machine waits for the host to continue.
    pub fn set_selected_option(&mut self, selected_option_id: OptionId) -> (r: Result<
        (),
        DialogueError,
    >)
        ensures
            old(self).execution_state != ExecutionState::WaitingOnOptionSelection ==> r == Err::<
                (),
                DialogueError,
            >(DialogueError::UnexpectedOptionSelectionError) && *final(self) == *old(self),
            (old(self).execution_state == ExecutionState::WaitingOnOptionSelection
                && selected_option_id.0 >= old(self).opts().len()) ==> r == Err::<
                (),
                DialogueError,
            >(
                DialogueError::InvalidOptionIdError {
                    selected_option_id,
                    max_id: if old(self).opts().len() == 0 {
                        0
                    } else {
                        (old(self).opts().len() - 1) as usize
                    },
                },
            ) && *final(self) == *old(self),
            (old(self).execution_state == ExecutionState::WaitingOnOptionSelection
                && selected_option_id.0 < old(self).opts().len()) ==> {
                &&& r is Ok
                &&& Self::installation_unchanged(*old(self), *final(self))
                &&& final(self).variable_storage == old(self).variable_storage
                &&& Self::selection_unchanged(*old(self), *final(self))
                &&& final(self).batched_events == old(self).batched_events
                &&& final(self).execution_state == ExecutionState::WaitingForContinue
                &&& final(self).opts().len() == 0
                &&& final(self).pc() == old(self).pc()
                &&& final(self).stk() == old(self).stk().push(
                    InternalValue {
                        raw_value: YarnValue::Number(
                            old(self).opts()[selected_option_id.0 as int].destination_node as i64,
                        ),
                        value_type: Type::Number,
                    },
                )
            },
    {
        if !(self.execution_state == ExecutionState::WaitingOnOptionSelection) {
            return Err(DialogueError::UnexpectedOptionSelectionError);
        }
        if selected_option_id.0 >= self.state.current_options.len() {
            let max_id = if self.state.current_options.len() == 0 {
                0
            } else {
                self.state.current_options.len() - 1
            };
            return Err(DialogueError::InvalidOptionIdError { selected_option_id, max_id });
        }
        let destination_node = self.state.current_options[selected_option_id.0].destination_node;
        self.state.stack.push(
            InternalValue {
                raw_value: YarnValue::Number(destination_node as i64),
                value_type: Type::Number,
            },
        );
        self.state.current_options = Vec::new();
        self.execution_state = ExecutionState::WaitingForContinue;
        Ok(())
    }

    /// Whether a run is in progress or suspended.
    pub fn is_active(&self) -> (r: bool)
        ensures
            r == (self.execution_state != ExecutionState::Stopped),
    {
        !(self.execution_state == ExecutionState::Stopped)
    }

    /// Whether the machine waits for an option selection.
    pub fn is_waiting_for_option_selection(&self) -> (r: bool)
        ensures
            r == (self.execution_state == ExecutionState::WaitingOnOptionSelection),
    {
        self.execution_state == ExecutionState::WaitingOnOptionSelection
    }

    /// The name of the selected node, if any.
    pub fn current_node(&self) -> (r: Option<String>)
        ensures
            r == self.current_node_name,
    {
        match &self.current_node_name {
            Some(name) => Some(name.clone()),
            None => None,
        }
    }
}

/// The characters of a string value; an empty sequence for the other kinds.
pub open spec fn string_view_of(v: YarnValue) -> Seq<char> {
    match v {
        YarnValue::String(s) => s@,
        _ => Seq::empty(),
    }
}

/// The substitutions an instruction pops, top of stack first.
pub open spec fn command_subs(stack: Seq<InternalValue>, count: int) -> Seq<Seq<char>> {
    Seq::new(count as nat, |j: int| string_view_of(stack[stack.len() - 1 - j].raw_value))
}

/// The arguments a function call consumes, in push order (earliest first):
/// the values lying under the count at the top of the stack.
pub open spec fn call_arguments(stack: Seq<InternalValue>, count: int) -> Seq<YarnValue> {
    Seq::new(count as nat, |j: int| stack[stack.len() - 1 - count + j].raw_value)
}

impl<V: VariableStorage, F: UntypedYarnFn> VirtualMachine<V, F> {
    /// The call failed with the given fatal condition.
    pub open spec fn failed(r: Result<(), DialogueError>, e: FatalError) -> bool {
        r == Err::<(), DialogueError>(DialogueError::Fatal(e))
    }

    /// Everything stayed as it was but the program counter, which moved to
    /// the given index.
    pub open spec fn moved_pc(pre: Self, post: Self, pc: int) -> bool {
        &&& Self::installation_unchanged(pre, post)
        &&& Self::selection_unchanged(pre, post)
        &&& post.variable_storage == pre.variable_storage
        &&& post.execution_state == pre.execution_state
        &&& post.batched_events == pre.batched_events
        &&& post.state.stack == pre.state.stack
        &&& post.state.current_options == pre.state.current_options
        &&& post.pc() == pc
    }

    /// One literal was pushed and the counter advanced.
    pub open spec fn pushed_literal(pre: Self, post: Self, v: InternalValue) -> bool {
        &&& Self::installation_unchanged(pre, post)
        &&& Self::selection_unchanged(pre, post)
        &&& post.variable_storage == pre.variable_storage
        &&& post.execution_state == pre.execution_state
        &&& post.batched_events == pre.batched_events
        &&& post.stk() == pre.stk().push(v)
        &&& post.state.current_options == pre.state.current_options
        &&& post.pc() == pre.pc() + 1
    }

    /// What stopping inside an instruction leaves behind: a discarded run
    /// state whose counter was then advanced once.
    pub open spec fn halted(post: Self) -> bool {
        &&& post.execution_state == ExecutionState::Stopped
        &&& post.current_node_name is None
        &&& post.pc() == 1
        &&& post.stk().len() == 0
        &&& post.opts().len() == 0
    }

    /// The stack was cut down to the given sequence; nothing else moved,
    /// not even the program counter.
    pub open spec fn consumed(pre: Self, post: Self, rest: Seq<InternalValue>) -> bool {
        &&& Self::installation_unchanged(pre, post)
        &&& Self::selection_unchanged(pre, post)
        &&& post.variable_storage == pre.variable_storage
        &&& post.execution_state == pre.execution_state
        &&& post.batched_events == pre.batched_events
        &&& post.stk() == rest
        &&& post.state.current_options == pre.state.current_options
        &&& post.pc() == pre.pc()
    }

    /// What peeking a jump index off the stack does.
    pub open spec fn peek_and_jump_post(pre: Self, post: Self, r: Result<
        (),
        DialogueError,
    >) -> bool {
        if pre.stk().len() == 0 {
            Self::failed(r, FatalError::StackUnderflow) && post == pre
        } else {
            match pre.stk().last().raw_value {
                YarnValue::Number(n) => if 0 <= n <= usize::MAX {
                    r is Ok && Self::moved_pc(pre, post, n as int)
                } else {
                    Self::failed(r, FatalError::InvalidNumericIndex) && post == pre
                },
                _ => Self::failed(r, FatalError::WrongValueKind { expected: Type::Number }) && post
                    == pre,
            }
        }
    }

    /// What the conditional jump does: the boolean is peeked, not popped.
    pub open spec fn jump_if_false_post(
        pre: Self,
        post: Self,
        destination: u32,
        r: Result<(), DialogueError>,
    ) -> bool {
        if pre.stk().len() == 0 {
            Self::failed(r, FatalError::StackUnderflow) && post == pre
        } else {
            match pre.stk().last().raw_value {
                YarnValue::Boolean(b) => r is Ok && Self::moved_pc(
                    pre,
                    post,
                    if b {
                        pre.pc() + 1
                    } else {
                        destination as int
                    },
                ),
                _ => Self::failed(r, FatalError::WrongValueKind { expected: Type::Boolean }) && post
                    == pre,
            }
        }
    }

    /// What discarding the top of the stack does.
    pub open spec fn pop_post(pre: Self, post: Self, r: Result<(), DialogueError>) -> bool {
        if pre.stk().len() == 0 {
            Self::failed(r, FatalError::StackUnderflow) && post == pre
        } else {
            &&& r is Ok
            &&& Self::installation_unchanged(pre, post)
            &&& Self::selection_unchanged(pre, post)
            &&& post.variable_storage == pre.variable_storage
            &&& post.execution_state == pre.execution_state
            &&& post.batched_events == pre.batched_events
            &&& post.stk() == pre.stk().drop_last()
            &&& post.state.current_options == pre.state.current_options
            &&& post.pc() == pre.pc() + 1
        }
    }

    /// What delivering a line does: the substitutions are popped and
    /// discarded, the line event is buffered, and the machine suspends.
    pub open spec fn run_line_post(
        pre: Self,
        post: Self,
        line_id: u32,
        substitution_count: usize,
        r: Result<(), DialogueError>,
    ) -> bool {
        if pre.stk().len() < substitution_count {
            Self::failed(r, FatalError::StackUnderflow) && post == pre
        } else {
            &&& r is Ok
            &&& Self::installation_unchanged(pre, post)
            &&& Self::selection_unchanged(pre, post)
            &&& post.variable_storage == pre.variable_storage
            &&& post.stk() == pre.stk().take(pre.stk().len() - substitution_count)
            &&& post.state.current_options == pre.state.current_options
            &&& post.ev() == pre.ev().push(EventV::Line(Line { id: LineId(line_id) }))
            &&& post.execution_state == ExecutionState::WaitingForContinue
            &&& post.pc() == pre.pc() + 1
        }
    }

    /// What delivering a command does: the string substitutions are popped
    /// and spliced into the placeholders, the command event is buffered, and
    /// the machine suspends.
    pub open spec fn run_command_post(
        pre: Self,
        post: Self,
        command_text: String,
        substitution_count: usize,
        r: Result<(), DialogueError>,
    ) -> bool {
        let len = pre.stk().len();
        if len < substitution_count {
            Self::failed(r, FatalError::StackUnderflow) && post == pre
        } else if exists|j: int|
            0 <= j < substitution_count && !((#[trigger] pre.stk()[len - 1 - j].raw_value)
                is String) {
            Self::failed(r, FatalError::WrongValueKind { expected: Type::String }) && post == pre
        } else {
            &&& r is Ok
            &&& Self::installation_unchanged(pre, post)
            &&& Self::selection_unchanged(pre, post)
            &&& post.variable_storage == pre.variable_storage
            &&& post.stk() == pre.stk().take(len - substitution_count)
            &&& post.state.current_options == pre.state.current_options
            &&& post.ev() == pre.ev().push(
                EventV::Command(
                    spliced(command_text@, command_subs(pre.stk(), substitution_count as int)),
                ),
            )
            &&& post.execution_state == ExecutionState::WaitingForContinue
            &&& post.pc() == pre.pc() + 1
        }
    }

    /// One option was appended, numbered with the old batch size.
    pub open spec fn option_added(
        pre: Self,
        post: Self,
        line_id: u32,
        destination: u32,
        available: bool,
        popped: bool,
    ) -> bool {
        &&& Self::installation_unchanged(pre, post)
        &&& Self::selection_unchanged(pre, post)
        &&& post.variable_storage == pre.variable_storage
        &&& post.execution_state == pre.execution_state
        &&& post.batched_events == pre.batched_events
        &&& post.stk() == if popped {
            pre.stk().drop_last()
        } else {
            pre.stk()
        }
        &&& post.opts() == pre.opts().push(
            DialogueOption {
                line: Line { id: LineId(line_id) },
                id: OptionId(pre.opts().len() as usize),
                destination_node: destination,
                is_available: available,
            },
        )
        &&& post.pc() == pre.pc() + 1
    }

    /// What accumulating an option does: a conditional option pops its
    /// availability boolean, an unconditional one is available outright.
    pub open spec fn add_option_post(
        pre: Self,
        post: Self,
        line_id: u32,
        destination: u32,
        has_condition: bool,
        r: Result<(), DialogueError>,
    ) -> bool {
        if has_condition {
            if pre.stk().len() == 0 {
                Self::failed(r, FatalError::StackUnderflow) && post == pre
            } else {
                match pre.stk().last().raw_value {
                    YarnValue::Boolean(b) => r is Ok && Self::option_added(
                        pre,
                        post,
                        line_id,
                        destination,
                        b,
                        true,
                    ),
                    _ => Self::failed(r, FatalError::WrongValueKind { expected: Type::Boolean })
                        && post == pre,
                }
            }
        } else {
            r is Ok && Self::option_added(pre, post, line_id, destination, true, false)
        }
    }

    /// What offering the options does: with none accumulated the dialogue
    /// completes and the machine stops; otherwise the batch is buffered and
    /// the machine waits for a selection. The batch itself is cleared only
    /// once a selection is reported.
    pub open spec fn show_options_post(pre: Self, post: Self, r: Result<
        (),
        DialogueError,
    >) -> bool {
        &&& r is Ok
        &&& Self::installation_unchanged(pre, post)
        &&& post.variable_storage == pre.variable_storage
        &&& post.current_node == pre.current_node
        &&& if pre.opts().len() == 0 {
            &&& post.ev() == pre.ev().push(EventV::DialogueComplete)
            &&& Self::halted(post)
        } else {
            &&& post.current_node_name == pre.current_node_name
            &&& post.ev() == pre.ev().push(EventV::Options(pre.opts()))
            &&& post.execution_state == ExecutionState::WaitingOnOptionSelection
            &&& post.state.stack == pre.state.stack
            &&& post.state.current_options == pre.state.current_options
            &&& post.pc() == pre.pc() + 1
        }
    }

    /// What calling a registered function does: the argument count and the
    /// arguments are popped even when the lookup or the arity check then
    /// fails; the arity check fails exactly when the declared parameter
    /// count differs from the popped count; on success the registered
    /// function's result on exactly the popped arguments, in push order, is
    /// pushed, tagged with the type the function declares.
    pub open spec fn call_func_post(
        pre: Self,
        post: Self,
        function_name: String,
        r: Result<(), DialogueError>,
    ) -> bool {
        let len = pre.stk().len();
        if len == 0 {
            Self::failed(r, FatalError::StackUnderflow) && post == pre
        } else {
            match pre.stk().last().raw_value {
                YarnValue::Number(n) => if !(0 <= n <= usize::MAX) {
                    Self::failed(r, FatalError::InvalidNumericIndex) && post == pre
                } else {
                    let count = n as int;
                    if len - 1 < count {
                        Self::failed(r, FatalError::StackUnderflow) && post == pre
                    } else {
                        let rest = pre.stk().take(len - 1 - count);
                        if !pre.library.functions().contains_key(function_name@) {
                            &&& (r matches Err(e) && e matches DialogueError::FunctionNotFound {
                                function_name: m,
                                library: names,
                            } && m@ == function_name@ && names@.len() == pre.library.entries@.len()
                                && (forall|i: int|
                                0 <= i < names@.len() ==> names@[i]@
                                    == pre.library.entries@[i].0@))
                            &&& Self::consumed(pre, post, rest)
                        } else {
                            let f = pre.library.functions()[function_name@];
                            if f.spec_parameter_types().len() != count {
                                &&& (r matches Err(e) && e matches DialogueError::Fatal(fe)
                                    && fe matches FatalError::ParameterCountMismatch {
                                    function_name: m,
                                    expected,
                                    actual,
                                } && m@ == function_name@ && expected
                                    == f.spec_parameter_types().len() && actual == count)
                                &&& Self::consumed(pre, post, rest)
                            } else {
                                &&& r is Ok
                                &&& Self::installation_unchanged(pre, post)
                                &&& Self::selection_unchanged(pre, post)
                                &&& post.variable_storage == pre.variable_storage
                                &&& post.execution_state == pre.execution_state
                                &&& post.batched_events == pre.batched_events
                                &&& post.state.current_options == pre.state.current_options
                                &&& post.stk().len() == rest.len() + 1
                                &&& post.stk().take(rest.len() as int) == rest
                                &&& post.stk().last().value_type == f.spec_return_type()
                                &&& f.call_rel(
                                    call_arguments(pre.stk(), count),
                                    post.stk().last().raw_value,
                                )
                                &&& post.pc() == pre.pc() + 1
                            }
                        }
                    }
                },
                _ => Self::failed(r, FatalError::WrongValueKind { expected: Type::Number }) && post
                    == pre,
            }
        }
    }

    /// What reading a variable does: a stored value is pushed as it is; an
    /// unknown name falls back to the program's declared initial value,
    /// which is first written back to the store.
    pub open spec fn push_variable_post(
        pre: Self,
        post: Self,
        variable_name: String,
        r: Result<(), DialogueError>,
    ) -> bool {
        let name = variable_name@;
        &&& ((pre.variable_storage.reliable() && (pre.vars().contains_key(name) || (
        pre.program matches Some(p) && assoc_map(p.initial_values@).contains_key(name))))
            ==> r is Ok)
        &&& post.variable_storage.reliable() == pre.variable_storage.reliable()
        &&& (match r {
            Ok(_) => {
                let pushed = post.stk().last();
                &&& Self::installation_unchanged(pre, post)
                &&& Self::selection_unchanged(pre, post)
                &&& post.stk() == pre.stk().push(pushed)
                &&& pushed.wf()
                &&& post.state.current_options == pre.state.current_options
                &&& post.batched_events == pre.batched_events
                &&& post.execution_state == pre.execution_state
                &&& post.pc() == pre.pc() + 1
                &&& ((pre.vars().contains_key(name) && pushed.raw_value == pre.vars()[name]
                    && post.variable_storage == pre.variable_storage) || (!pre.vars().contains_key(
                    name,
                ) && (pre.program matches Some(p) && assoc_map(p.initial_values@).contains_key(name)
                    && pushed.raw_value == assoc_map(p.initial_values@)[name] && post.vars()
                    == pre.vars().insert(name, pushed.raw_value))))
            },
            Err(e) => match e {
                DialogueError::NoProgramLoaded => {
                    &&& !pre.vars().contains_key(name)
                    &&& pre.program is None
                    &&& post == pre
                },
                DialogueError::Fatal(fe) => {
                    &&& (fe matches FatalError::MissingInitialValue { variable_name: m } && m@
                        == name)
                    &&& !pre.vars().contains_key(name)
                    &&& (pre.program matches Some(p) && !assoc_map(
                        p.initial_values@,
                    ).contains_key(name))
                    &&& post == pre
                },
                DialogueError::VariableStorageError(_) => {
                    &&& Self::installation_unchanged(pre, post)
                    &&& Self::selection_unchanged(pre, post)
                    &&& post.vars() == pre.vars()
                    &&& post.state == pre.state
                    &&& post.batched_events == pre.batched_events
                    &&& post.execution_state == pre.execution_state
                },
                _ => false,
            },
        })
    }

    /// What writing a variable does: the top of the stack is peeked, not
    /// popped, and written to the store.
    pub open spec fn store_variable_post(
        pre: Self,
        post: Self,
        variable_name: String,
        r: Result<(), DialogueError>,
    ) -> bool {
        if pre.stk().len() == 0 {
            Self::failed(r, FatalError::StackUnderflow) && post == pre
        } else {
            &&& (pre.variable_storage.reliable() ==> r is Ok)
            &&& post.variable_storage.reliable() == pre.variable_storage.reliable()
            &&& (match r {
                Ok(_) => {
                    &&& Self::installation_unchanged(pre, post)
                    &&& Self::selection_unchanged(pre, post)
                    &&& post.vars() == pre.vars().insert(
                        variable_name@,
                        pre.stk().last().raw_value,
                    )
                    &&& post.state.stack == pre.state.stack
                    &&& post.state.current_options == pre.state.current_options
                    &&& post.batched_events == pre.batched_events
                    &&& post.execution_state == pre.execution_state
                    &&& post.pc() == pre.pc() + 1
                },
                Err(e) => {
                    &&& e matches DialogueError::VariableStorageError(_)
                    &&& Self::installation_unchanged(pre, post)
                    &&& Self::selection_unchanged(pre, post)
                    &&& post.vars() == pre.vars()
                    &&& post.state == pre.state
                    &&& post.batched_events == pre.batched_events
                    &&& post.execution_state == pre.execution_state
                },
            })
        }
    }

    /// What stopping does: the node-complete and dialogue-complete events
    /// are buffered and the run state is discarded.
    pub open spec fn stop_post(pre: Self, post: Self, r: Result<(), DialogueError>) -> bool {
        &&& r is Ok
        &&& Self::installation_unchanged(pre, post)
        &&& post.variable_storage == pre.variable_storage
        &&& post.current_node == pre.current_node
        &&& (pre.current_node_name matches Some(s) ==> post.ev() == pre.ev().push(
            EventV::NodeComplete(s@),
        ).push(EventV::DialogueComplete))
        &&& Self::halted(post)
    }

    /// What running a named node does: the current node is reported
    /// complete, then the named node is selected as `set_node` does; the
    /// counter is not advanced, so the new node starts from its top.
    pub open spec fn run_node_post(
        pre: Self,
        post: Self,
        node_name: String,
        r: Result<(), DialogueError>,
    ) -> bool {
        pre.current_node_name matches Some(cur) ==> {
            let with_complete = pre.ev().push(EventV::NodeComplete(cur@));
            &&& (pre.program is None ==> {
                &&& r == Err::<(), DialogueError>(DialogueError::NoProgramLoaded)
                &&& Self::events_only(pre, post, with_complete)
            })
            &&& (pre.program matches Some(p) ==> {
                &&& (!has_node(p.nodes@, node_name@) ==> {
                    &&& (r matches Err(e) && e matches DialogueError::InvalidNode { node_name: m }
                        && m@ == node_name@)
                    &&& Self::events_only(pre, post, with_complete)
                })
                &&& (has_node(p.nodes@, node_name@) ==> {
                    &&& r is Ok
                    &&& Self::entered_node(pre, post, node_name@, with_complete)
                })
            })
        }
    }

    /// Only the event buffer changed, to the given sequence.
    pub open spec fn events_only(pre: Self, post: Self, events: Seq<EventV>) -> bool {
        &&& Self::installation_unchanged(pre, post)
        &&& Self::selection_unchanged(pre, post)
        &&& post.variable_storage == pre.variable_storage
        &&& post.execution_state == pre.execution_state
        &&& post.state == pre.state
        &&& post.ev() == events
    }

    /// The named node of the installed program was entered: copied in, with
    /// a fresh run state and a node-start event after the given ones.
    pub open spec fn entered_node(pre: Self, post: Self, name: Seq<char>, events: Seq<
        EventV,
    >) -> bool {
        &&& Self::installation_unchanged(pre, post)
        &&& post.variable_storage == pre.variable_storage
        &&& post.execution_state == pre.execution_state
        &&& (post.current_node matches Some(n) && n.name@ == name && (pre.program matches Some(p)
            && exists|i: int|
            0 <= i < p.nodes@.len() && p.nodes@[i].name@ == name && p.nodes@[i].instructions@
                == n.instructions@))
        &&& (post.current_node_name matches Some(s) && s@ == name)
        &&& post.state.is_fresh()
        &&& post.ev() == events.push(EventV::NodeStart(name))
    }

    /// What running a node named by the stack does: the name is popped, then
    /// the node is selected as `set_node` does; no node-complete event is
    /// emitted.
    pub open spec fn peek_and_run_node_post(pre: Self, post: Self, r: Result<
        (),
        DialogueError,
    >) -> bool {
        if pre.stk().len() == 0 {
            Self::failed(r, FatalError::StackUnderflow) && post == pre
        } else {
            match pre.stk().last().raw_value {
                YarnValue::String(s) => {
                    let target = s@;
                    &&& (pre.program is None ==> {
                        &&& r == Err::<(), DialogueError>(DialogueError::NoProgramLoaded)
                        &&& Self::consumed(pre, post, pre.stk().drop_last())
                    })
                    &&& (pre.program matches Some(p) ==> {
                        &&& (!has_node(p.nodes@, target) ==> {
                            &&& (r matches Err(e) && e matches DialogueError::InvalidNode {
                                node_name: m,
                            } && m@ == target)
                            &&& Self::consumed(pre, post, pre.stk().drop_last())
                        })
                        &&& (has_node(p.nodes@, target) ==> {
                            &&& r is Ok
                            &&& Self::entered_node(pre, post, target, pre.ev())
                        })
                    })
                },
                _ => Self::failed(r, FatalError::WrongValueKind { expected: Type::String }) && post
                    == pre,
            }
        }
    }

    /// What one instruction does to the machine, by instruction.
    pub open spec fn run_post(
        pre: Self,
        post: Self,
        instruction: Instruction,
        r: Result<(), DialogueError>,
    ) -> bool {
        match instruction {
            Instruction::JumpTo { destination } => r is Ok && Self::moved_pc(
                pre,
                post,
                destination as int,
            ),
            Instruction::PeekAndJump => Self::peek_and_jump_post(pre, post, r),
            Instruction::JumpIfFalse { destination } => Self::jump_if_false_post(
                pre,
                post,
                destination,
                r,
            ),
            Instruction::PushString { value } => r is Ok && Self::pushed_literal(
                pre,
                post,
                InternalValue { raw_value: YarnValue::String(value), value_type: Type::String },
            ),
            Instruction::PushNumber { value } => r is Ok && Self::pushed_literal(
                pre,
                post,
                InternalValue { raw_value: YarnValue::Number(value), value_type: Type::Number },
            ),
            Instruction::PushBool { value } => r is Ok && Self::pushed_literal(
                pre,
                post,
                InternalValue { raw_value: YarnValue::Boolean(value), value_type: Type::Boolean },
            ),
            Instruction::Pop => Self::pop_post(pre, post, r),
            Instruction::RunLine { line_id, substitution_count } => Self::run_line_post(
                pre,
                post,
                line_id,
                substitution_count,
                r,
            ),
            Instruction::RunCommand { command_text, substitution_count } => Self::run_command_post(
                pre,
                post,
                command_text,
                substitution_count,
                r,
            ),
            Instruction::AddOption { line_id, destination, has_condition } => Self::add_option_post(
                pre,
                post,
                line_id,
                destination,
                has_condition,
                r,
            ),
            Instruction::ShowOptions => Self::show_options_post(pre, post, r),
            Instruction::CallFunc { function_name } => Self::call_func_post(
                pre,
                post,
                function_name,
                r,
            ),
            Instruction::PushVariable { variable_name } => Self::push_variable_post(
                pre,
                post,
                variable_name,
                r,
            ),
            Instruction::StoreVariable { variable_name } => Self::store_variable_post(
                pre,
                post,
                variable_name,
                r,
            ),
            Instruction::Stop => Self::stop_post(pre, post, r),
            Instruction::RunNode { node_name } => Self::run_node_post(pre, post, node_name, r),
            Instruction::PeekAndRunNode => Self::peek_and_run_node_post(pre, post, r),
            _ => Self::failed(r, FatalError::UnsupportedInstruction) && post == pre,
        }
    }

    /// Pops the substitutions and buffers the line event.
    fn exec_run_line(&mut self, line_id: u32, substitution_count: usize) -> (r: Result<
        (),
        DialogueError,
    >)
        requires
            old(self).wf(),
            old(self).state.program_counter < usize::MAX,
        ensures
            final(self).wf(),
            Self::run_line_post(*old(self), *final(self), line_id, substitution_count, r),
    {
        let len = self.state.stack.len();
        if len < substitution_count {
            return Err(DialogueError::Fatal(FatalError::StackUnderflow));
        }
        self.state.stack.truncate(len - substitution_count);
        let event = DialogueEvent::Line(Line { id: LineId(line_id) });
        proof {
            lemma_events_view_push(self.batched_events@, event);
        }
        self.batched_events.push(event);
        self.set_execution_state(ExecutionState::WaitingForContinue);
        self.state.program_counter = self.state.program_counter + 1;
        Ok(())
    }

    /// Pops the string substitutions, splices them into the placeholders and
    /// buffers the command event.
    #[verifier::loop_isolation(false)]
    fn exec_run_command(&mut self, command_text: &String, substitution_count: usize) -> (r: Result<
        (),
        DialogueError,
    >)
        requires
            old(self).wf(),
            old(self).state.program_counter < usize::MAX,
        ensures
            final(self).wf(),
            Self::run_command_post(
                *old(self),
                *final(self),
                *command_text,
                substitution_count,
                r,
            ),
    {
        let ghost pre_stack = self.stk();
        let len = self.state.stack.len();
        if len < substitution_count {
            return Err(DialogueError::Fatal(FatalError::StackUnderflow));
        }
        let mut subs: Vec<String> = Vec::new();
        let mut j: usize = 0;
        while j < substitution_count
            invariant
                j <= substitution_count,
                substitution_count <= len,
                len == self.stk().len(),
                *self == *old(self),
                self.stk() == pre_stack,
                subs@.len() == j,
                forall|q: int| 0 <= q < j ==> (#[trigger] pre_stack[len - 1 - q].raw_value)
                    is String,
                forall|q: int| 0 <= q < j ==> subs@[q]@ == string_view_of(
                    pre_stack[len - 1 - q].raw_value,
                ),
            decreases substitution_count - j,
        {
            match &self.state.stack[len - 1 - j].raw_value {
                YarnValue::String(s) => {
                    subs.push(s.clone());
                },
                _ => {
                    return Err(
                        DialogueError::Fatal(FatalError::WrongValueKind { expected: Type::String }),
                    );
                },
            }
            j = j + 1;
        }
        let text = splice_substitutions(command_text.clone(), &subs);
        proof {
            assert(subs@.map_values(|s: String| s@) =~= command_subs(
                pre_stack,
                substitution_count as int,
            ));
        }
        self.state.stack.truncate(len - substitution_count);
        let event = DialogueEvent::Command(Command(text));
        proof {
            lemma_events_view_push(self.batched_events@, event);
        }
        self.batched_events.push(event);
        self.set_execution_state(ExecutionState::WaitingForContinue);
        self.state.program_counter = self.state.program_counter + 1;
        Ok(())
    }

    /// Accumulates one option, popping its availability condition if it has
    /// one.
    fn exec_add_option(&mut self, line_id: u32, destination: u32, has_condition: bool) -> (r:
        Result<(), DialogueError>)
        requires
            old(self).wf(),
            old(self).state.program_counter < usize::MAX,
        ensures
            final(self).wf(),
            Self::add_option_post(
                *old(self),
                *final(self),
                line_id,
                destination,
                has_condition,
                r,
            ),
    {
        let available = if has_condition {
            let len = self.state.stack.len();
            if len == 0 {
                return Err(DialogueError::Fatal(FatalError::StackUnderflow));
            }
            let b = match &self.state.stack[len - 1].raw_value {
                YarnValue::Boolean(b) => *b,
                _ => {
                    return Err(
                        DialogueError::Fatal(
                            FatalError::WrongValueKind { expected: Type::Boolean },
                        ),
                    );
                },
            };
            let _ = self.state.stack.pop();
            b
        } else {
            true
        };
        let index = self.state.current_options.len();
        self.state.current_options.push(
            DialogueOption {
                line: Line { id: LineId(line_id) },
                id: OptionId(index),
                destination_node: destination,
                is_available: available,
            },
        );
        self.state.program_counter = self.state.program_counter + 1;
        Ok(())
    }

    /// Offers the accumulated options, or completes the dialogue when there
    /// are none.
    fn exec_show_options(&mut self) -> (r: Result<(), DialogueError>)
        requires
            old(self).wf(),
            old(self).state.program_counter < usize::MAX,
        ensures
            final(self).wf(),
            Self::show_options_post(*old(self), *final(self), r),
    {
        if self.state.current_options.len() == 0 {
            proof {
                lemma_events_view_push(self.batched_events@, DialogueEvent::DialogueComplete);
            }
            self.batched_events.push(DialogueEvent::DialogueComplete);
            self.set_execution_state(ExecutionState::Stopped);
            self.state.program_counter = self.state.program_counter + 1;
            return Ok(());
        }
        self.set_execution_state(ExecutionState::WaitingOnOptionSelection);
        let mut snapshot: Vec<DialogueOption> = Vec::new();
        let mut q: usize = 0;
        while q < self.state.current_options.len()
            invariant
                q <= self.opts().len(),
                snapshot@ == self.opts().take(q as int),
            decreases self.opts().len() - q,
        {
            snapshot.push(self.state.current_options[q]);
            proof {
                assert(snapshot@ =~= self.opts().take(q + 1 as int));
            }
            q = q + 1;
        }
        proof {
            assert(snapshot@ =~= self.opts());
        }
        let event = DialogueEvent::Options(snapshot);
        proof {
            lemma_events_view_push(self.batched_events@, event);
        }
        self.batched_events.push(event);
        self.state.program_counter = self.state.program_counter + 1;
        Ok(())
    }

    /// Pops the argument count and the arguments, calls the registered
    /// function and pushes its result, wrapped with its declared type.
    fn exec_call_func(&mut self, function_name: &String) -> (r: Result<(), DialogueError>)
        requires
            old(self).wf(),
            old(self).state.program_counter < usize::MAX,
        ensures
            final(self).wf(),
            Self::call_func_post(*old(self), *final(self), *function_name, r),
    {
        let ghost pre_stack = self.stk();
        let len = self.state.stack.len();
        if len == 0 {
            return Err(DialogueError::Fatal(FatalError::StackUnderflow));
        }
        let n: i64 = match &self.state.stack[len - 1].raw_value {
            YarnValue::Number(n) => *n,
            _ => {
                return Err(
                    DialogueError::Fatal(FatalError::WrongValueKind { expected: Type::Number }),
                );
            },
        };
        let actual_parameter_count: usize = match number_as_index(n) {
            Some(c) => c,
            None => {
                return Err(DialogueError::Fatal(FatalError::InvalidNumericIndex));
            },
        };
        if len - 1 < actual_parameter_count {
            return Err(DialogueError::Fatal(FatalError::StackUnderflow));
        }
        let base = len - 1 - actual_parameter_count;
        let mut parameters: Vec<YarnValue> = Vec::new();
        let mut q: usize = 0;
        while q < actual_parameter_count
            invariant
                q <= actual_parameter_count,
                base + actual_parameter_count < len,
                len == self.stk().len(),
                self.stk() == pre_stack,
                base == len - 1 - actual_parameter_count,
                parameters@.len() == q,
                forall|t: int| 0 <= t < q ==> parameters@[t] == pre_stack[base + t].raw_value,
            decreases actual_parameter_count - q,
        {
            parameters.push(self.state.stack[base + q].raw_value.duplicate());
            q = q + 1;
        }
        proof {
            assert(parameters@ =~= call_arguments(pre_stack, actual_parameter_count as int));
        }
        self.state.stack.truncate(base);
        let (return_value, return_type) = {
            let function = match self.library.get(function_name.as_str()) {
                Some(function) => function,
                None => {
                    let names = self.library.names();
                    return Err(
                        DialogueError::FunctionNotFound {
                            function_name: function_name.clone(),
                            library: names,
                        },
                    );
                },
            };
            let expected_parameter_count = function.parameter_types().len();
            if expected_parameter_count != actual_parameter_count {
                return Err(
                    DialogueError::Fatal(
                        FatalError::ParameterCountMismatch {
                            function_name: function_name.clone(),
                            expected: expected_parameter_count,
                            actual: actual_parameter_count,
                        },
                    ),
                );
            }
            (function.call(parameters), function.return_type())
        };
        self.state.stack.push(
            InternalValue { raw_value: return_value, value_type: return_type },
        );
        proof {
            assert(self.stk().take(base as int) =~= pre_stack.take(base as int));
        }
        self.state.program_counter = self.state.program_counter + 1;
        Ok(())
    }

    /// Pushes a variable's value, falling back to the program's declared
    /// initial value, which is then written back to the store.
    fn exec_push_variable(&mut self, variable_name: &String) -> (r: Result<(), DialogueError>)
        requires
            old(self).wf(),
            old(self).state.program_counter < usize::MAX,
        ensures
            final(self).wf(),
            Self::push_variable_post(*old(self), *final(self), *variable_name, r),
    {
        match self.variable_storage.get(variable_name.as_str()) {
            Ok(v) => {
                let value = InternalValue::of(v);
                self.state.stack.push(value);
                self.state.program_counter = self.state.program_counter + 1;
                Ok(())
            },
            Err(e) => match e {
                VariableStorageError::VariableNotFound { .. } => match &self.program {
                    None => Err(DialogueError::NoProgramLoaded),
                    Some(program) => {
                        let initial = match assoc_get(
                            &program.initial_values,
                            variable_name.as_str(),
                        ) {
                            None => {
                                return Err(
                                    DialogueError::Fatal(
                                        FatalError::MissingInitialValue {
                                            variable_name: variable_name.clone(),
                                        },
                                    ),
                                );
                            },
                            Some(v0) => v0.duplicate(),
                        };
                        match self.variable_storage.set(
                            variable_name.clone(),
                            initial.duplicate(),
                        ) {
                            Err(e2) => Err(DialogueError::VariableStorageError(e2)),
                            Ok(_) => {
                                let value = InternalValue::of(initial);
                                self.state.stack.push(value);
                                self.state.program_counter = self.state.program_counter + 1;
                                Ok(())
                            },
                        }
                    },
                },
                other => Err(DialogueError::VariableStorageError(other)),
            },
        }
    }

    /// Writes the value at the top of the stack to the store, without
    /// popping it.
    fn exec_store_variable(&mut self, variable_name: &String) -> (r: Result<(), DialogueError>)
        requires
            old(self).wf(),
            old(self).state.program_counter < usize::MAX,
        ensures
            final(self).wf(),
            Self::store_variable_post(*old(self), *final(self), *variable_name, r),
    {
        let len = self.state.stack.len();
        if len == 0 {
            return Err(DialogueError::Fatal(FatalError::StackUnderflow));
        }
        let top = self.state.stack[len - 1].raw_value.duplicate();
        match self.variable_storage.set(variable_name.clone(), top) {
            Err(e) => Err(DialogueError::VariableStorageError(e)),
            Ok(_) => {
                self.state.program_counter = self.state.program_counter + 1;
                Ok(())
            },
        }
    }

    /// Reports the node and the dialogue complete and stops.
    fn exec_stop(&mut self) -> (r: Result<(), DialogueError>)
        requires
            old(self).wf(),
            old(self).current_node_name is Some,
            old(self).state.program_counter < usize::MAX,
        ensures
            final(self).wf(),
            Self::stop_post(*old(self), *final(self), r),
    {
        let node_name = match &self.current_node_name {
            Some(s) => s.clone(),
            None => unreached(),
        };
        let complete = DialogueEvent::NodeComplete(node_name);
        proof {
            lemma_events_view_push(self.batched_events@, complete);
        }
        self.batched_events.push(complete);
        proof {
            lemma_events_view_push(self.batched_events@, DialogueEvent::DialogueComplete);
        }
        self.batched_events.push(DialogueEvent::DialogueComplete);
        self.set_execution_state(ExecutionState::Stopped);
        self.state.program_counter = self.state.program_counter + 1;
        Ok(())
    }

    /// Reports the current node complete and enters the named node.
    fn exec_run_node(&mut self, node_name: &String) -> (r: Result<(), DialogueError>)
        requires
            old(self).wf(),
            old(self).current_node_name is Some,
        ensures
            final(self).wf(),
            Self::run_node_post(*old(self), *final(self), *node_name, r),
    {
        let current = match &self.current_node_name {
            Some(s) => s.clone(),
            None => unreached(),
        };
        let complete = DialogueEvent::NodeComplete(current);
        proof {
            lemma_events_view_push(self.batched_events@, complete);
        }
        self.batched_events.push(complete);
        self.set_node(node_name.as_str())
    }

    /// Pops a node name off the stack and enters that node.
    fn exec_peek_and_run_node(&mut self) -> (r: Result<(), DialogueError>)
        requires
            old(self).wf(),
        ensures
            final(self).wf(),
            Self::peek_and_run_node_post(*old(self), *final(self), r),
    {
        let len = self.state.stack.len();
        if len == 0 {
            return Err(DialogueError::Fatal(FatalError::StackUnderflow));
        }
        let target = match &self.state.stack[len - 1].raw_value {
            YarnValue::String(s) => s.clone(),
            _ => {
                return Err(
                    DialogueError::Fatal(FatalError::WrongValueKind { expected: Type::String }),
                );
            },
        };
        let _ = self.state.stack.pop();
        self.set_node(target.as_str())
    }

    /// Interprets one instruction against the stack, the variables and the
    /// registry, as [`VirtualMachine::run_post`] describes it.
    pub fn run_instruction(&mut self, instruction: &Instruction) -> (r: Result<(), DialogueError>)
        requires
            old(self).wf(),
            old(self).current_node_name is Some,
            old(self).state.program_counter < usize::MAX,
        ensures
            final(self).wf(),
            Self::run_post(*old(self), *final(self), *instruction, r),
    {
        match instruction {
            Instruction::JumpTo { destination } => {
                self.state.program_counter = *destination as usize;
                Ok(())
            },
            Instruction::PeekAndJump => {
                let len = self.state.stack.len();
                if len == 0 {
                    return Err(DialogueError::Fatal(FatalError::StackUnderflow));
                }
                let n: i64 = match &self.state.stack[len - 1].raw_value {
                    YarnValue::Number(n) => *n,
                    _ => {
                        return Err(
                            DialogueError::Fatal(
                                FatalError::WrongValueKind { expected: Type::Number },
                            ),
                        );
                    },
                };
                match number_as_index(n) {
                    Some(idx) => {
                        self.state.program_counter = idx;
                        Ok(())
                    },
                    None => Err(DialogueError::Fatal(FatalError::InvalidNumericIndex)),
                }
            },
            Instruction::JumpIfFalse { destination } => {
                let len = self.state.stack.len();
                if len == 0 {
                    return Err(DialogueError::Fatal(FatalError::StackUnderflow));
                }
                let b = match &self.state.stack[len - 1].raw_value {
                    YarnValue::Boolean(b) => *b,
                    _ => {
                        return Err(
                            DialogueError::Fatal(
                                FatalError::WrongValueKind { expected: Type::Boolean },
                            ),
                        );
                    },
                };
                if b {
                    self.state.program_counter = self.state.program_counter + 1;
                } else {
                    self.state.program_counter = *destination as usize;
                }
                Ok(())
            },
            Instruction::PushString { value } => {
                self.state.stack.push(
                    InternalValue {
                        raw_value: YarnValue::String(value.clone()),
                        value_type: Type::String,
                    },
                );
                self.state.program_counter = self.state.program_counter + 1;
                Ok(())
            },
            Instruction::PushNumber { value } => {
                self.state.stack.push(
                    InternalValue { raw_value: YarnValue::Number(*value), value_type: Type::Number },
                );
                self.state.program_counter = self.state.program_counter + 1;
                Ok(())
            },
            Instruction::PushBool { value } => {
                self.state.stack.push(
                    InternalValue {
                        raw_value: YarnValue::Boolean(*value),
                        value_type: Type::Boolean,
                    },
                );
                self.state.program_counter = self.state.program_counter + 1;
                Ok(())
            },
            Instruction::Pop => {
                if self.state.stack.len() == 0 {
                    return Err(DialogueError::Fatal(FatalError::StackUnderflow));
                }
                let _ = self.state.stack.pop();
                self.state.program_counter = self.state.program_counter + 1;
                Ok(())
            },
            Instruction::RunLine { line_id, substitution_count } => self.exec_run_line(
                *line_id,
                *substitution_count,
            ),
            Instruction::RunCommand { command_text, substitution_count } => self.exec_run_command(
                command_text,
                *substitution_count,
            ),
            Instruction::AddOption { line_id, destination, has_condition } => self.exec_add_option(
                *line_id,
                *destination,
                *has_condition,
            ),
            Instruction::ShowOptions => self.exec_show_options(),
            Instruction::CallFunc { function_name } => self.exec_call_func(function_name),
            Instruction::PushVariable { variable_name } => self.exec_push_variable(variable_name),
            Instruction::StoreVariable { variable_name } => self.exec_store_variable(variable_name),
            Instruction::Stop => self.exec_stop(),
            Instruction::RunNode { node_name } => self.exec_run_node(node_name),
            Instruction::PeekAndRunNode => self.exec_peek_and_run_node(),
            Instruction::DetourToNode => Err(
                DialogueError::Fatal(FatalError::UnsupportedInstruction),
            ),
            Instruction::PeekAndDetourToNode => Err(
                DialogueError::Fatal(FatalError::UnsupportedInstruction),
            ),
            Instruction::Return => Err(DialogueError::Fatal(FatalError::UnsupportedInstruction)),
            Instruction::AddSaliencyCandidate => Err(
                DialogueError::Fatal(FatalError::UnsupportedInstruction),
            ),
            Instruction::AddSaliencyCandidateFromNode => Err(
                DialogueError::Fatal(FatalError::UnsupportedInstruction),
            ),
            Instruction::SelectSaliencyCandidate => Err(
                DialogueError::Fatal(FatalError::UnsupportedInstruction),
            ),
        }
    }

    /// The machine may legally continue: a node is selected and no option
    /// selection is pending.
    pub open spec fn can_continue(self) -> bool {
        &&& self.current_node is Some
        &&& self.current_node_name is Some
        &&& self.execution_state != ExecutionState::WaitingOnOptionSelection
    }

    /// The machines agree on everything but the event buffer, which the
    /// second has handed out.
    pub open spec fn drained(a: Self, b: Self) -> bool {
        &&& Self::installation_unchanged(a, b)
        &&& b.variable_storage == a.variable_storage
        &&& b.current_node == a.current_node
        &&& b.current_node_name == a.current_node_name
        &&& b.state == a.state
        &&& b.execution_state == a.execution_state
        &&& b.batched_events@.len() == 0
    }

    /// One iteration of the dispatch loop, witnessed by the machine `mid`
    /// reached right after the fetched instruction ran: the instruction at
    /// the counter of the current node runs successfully, and when the
    /// counter then lies past that node's instructions, the node and the
    /// dialogue are reported complete and the machine stops.
    pub open spec fn loop_step_via(pre: Self, mid: Self, post: Self, instruction: Instruction) -> bool {
        match pre.current_node {
            Some(node) => {
                &&& pre.execution_state == ExecutionState::Running
                &&& pre.pc() < node.instructions@.len()
                &&& instruction == node.instructions@[pre.pc()]
                &&& Self::run_post(pre, mid, instruction, Ok(()))
                &&& if mid.pc() < node.instructions@.len() {
                    post == mid
                } else {
                    &&& post.ev() == mid.ev().push(EventV::NodeComplete(node.name@)).push(
                        EventV::DialogueComplete,
                    )
                    &&& post.execution_state == ExecutionState::Stopped
                    &&& post.current_node_name is None
                    &&& post.state.is_fresh()
                    &&& post.current_node == mid.current_node
                    &&& Self::installation_unchanged(mid, post)
                    &&& post.variable_storage == mid.variable_storage
                }
            },
            None => false,
        }
    }

    /// One iteration of the dispatch loop.
    #[verifier::opaque]
    pub open spec fn loop_step(pre: Self, post: Self) -> bool {
        exists|mid: Self, instruction: Instruction| Self::loop_step_via(pre, mid, post, instruction)
    }

    /// A dispatch run: consecutive loop iterations from the first machine.
    pub open spec fn dispatch_run(chain: Seq<Self>) -> bool {
        &&& chain.len() >= 1
        &&& forall|i: int|
            0 <= i < chain.len() - 1 ==> Self::loop_step(#[trigger] chain[i], chain[i + 1])
    }

    /// The machine as it stands when the dispatch loop starts: set running,
    /// everything else untouched.
    pub open spec fn set_running(s: Self) -> Self {
        Self { execution_state: ExecutionState::Running, ..s }
    }

    /// A completed call: a dispatch run from `from` reaches a machine that
    /// is no longer running; `events` is that machine's whole buffer, which
    /// was handed out, leaving the machine as `fin`.
    pub open spec fn completed_run(
        from: Self,
        fin: Self,
        events: Seq<EventV>,
        chain: Seq<Self>,
    ) -> bool {
        &&& Self::dispatch_run(chain)
        &&& chain.first() == from
        &&& chain.last().execution_state != ExecutionState::Running
        &&& events == chain.last().ev()
        &&& Self::drained(chain.last(), fin)
    }

    /// A failed call: a dispatch run from `from` reaches a machine that is
    /// still running, where the error arose — the step budget ran out, the
    /// counter pointed at no instruction of the current node, or the fetched
    /// instruction itself failed with the error — and the buffered batch was
    /// discarded.
    pub open spec fn failed_run(from: Self, fin: Self, e: DialogueError, chain: Seq<Self>) -> bool {
        &&& Self::dispatch_run(chain)
        &&& chain.first() == from
        &&& chain.last().execution_state == ExecutionState::Running
        &&& ({
            ||| (e == DialogueError::Fatal(FatalError::StepLimitReached) && chain.len()
                == STEP_LIMIT + 1 && Self::drained(chain.last(), fin))
            ||| (e == DialogueError::Fatal(FatalError::ProgramCounterOutOfBounds) && (
            chain.last().current_node matches Some(node) && chain.last().pc()
                >= node.instructions@.len()) && Self::drained(chain.last(), fin))
            ||| (chain.last().current_node matches Some(node) && chain.last().pc()
                < node.instructions@.len() && (exists|mid: Self|
                Self::run_post(
                    chain.last(),
                    mid,
                    node.instructions@[chain.last().pc()],
                    Err(e),
                ) && Self::drained(mid, fin)))
        })
    }

    /// What every successful instruction keeps: the installation, a selected
    /// node, the buffered events as a prefix; whenever it leaves the running
    /// state it has buffered at least one new event, whose kind names the
    /// state it moved to.
    proof fn lemma_run_post_frame(
        pre: Self,
        post: Self,
        instruction: Instruction,
        r: Result<(), DialogueError>,
    )
        requires
            Self::run_post(pre, post, instruction, r),
            r is Ok,
            pre.current_node is Some,
            pre.current_node_name is Some,
        ensures
            Self::installation_unchanged(pre, post),
            pre.ev().is_prefix_of(post.ev()),
            post.current_node is Some,
            post.execution_state == ExecutionState::Running ==> post.current_node_name is Some,
            (pre.execution_state == ExecutionState::Running && post.execution_state
                != ExecutionState::Running) ==> post.ev().len() > pre.ev().len(),
            (pre.execution_state == ExecutionState::Running && post.execution_state
                == ExecutionState::WaitingForContinue) ==> post.ev().len() > 0 && (post.ev().last()
                matches EventV::Line(_) || post.ev().last() matches EventV::Command(_)),
            (pre.execution_state == ExecutionState::Running && post.execution_state
                == ExecutionState::WaitingOnOptionSelection) ==> post.ev().len() > 0
                && post.ev().last() matches EventV::Options(_),
            (pre.execution_state == ExecutionState::Running && post.execution_state
                == ExecutionState::Stopped) ==> post.ev().len() > 0 && post.ev().last()
                == EventV::DialogueComplete,
    {
        lemma_prefix_refl(pre.ev());
        match instruction {
            Instruction::RunLine { .. } => {
                lemma_prefix_push(pre.ev(), pre.ev(), post.ev().last());
            },
            Instruction::RunCommand { .. } => {
                lemma_prefix_push(pre.ev(), pre.ev(), post.ev().last());
            },
            Instruction::ShowOptions => {
                lemma_prefix_push(pre.ev(), pre.ev(), post.ev().last());
            },
            Instruction::Stop => {
                match pre.current_node_name {
                    Some(s) => {
                        let mid = pre.ev().push(EventV::NodeComplete(s@));
                        lemma_prefix_push(pre.ev(), pre.ev(), EventV::NodeComplete(s@));
                        lemma_prefix_push(pre.ev(), mid, EventV::DialogueComplete);
                    },
                    None => {},
                }
            },
            Instruction::RunNode { node_name } => {
                match pre.current_node_name {
                    Some(s) => {
                        let mid = pre.ev().push(EventV::NodeComplete(s@));
                        lemma_prefix_push(pre.ev(), pre.ev(), EventV::NodeComplete(s@));
                        lemma_prefix_push(pre.ev(), mid, EventV::NodeStart(node_name@));
                    },
                    None => {},
                }
            },
            Instruction::PeekAndRunNode => {
                if pre.stk().len() > 0 {
                    match pre.stk().last().raw_value {
                        YarnValue::String(s) => {
                            lemma_prefix_push(pre.ev(), pre.ev(), EventV::NodeStart(s@));
                        },
                        _ => {},
                    }
                }
            },
            _ => {},
        }
    }

    /// No instruction fails with one of the call-protocol errors: those
    /// name misuses of the host entry points, not of the bytecode.
    proof fn lemma_run_post_err(pre: Self, post: Self, instruction: Instruction, e: DialogueError)
        requires
            Self::run_post(pre, post, instruction, Err(e)),
            pre.current_node_name is Some,
        ensures
            e != DialogueError::NoNodeSelectedOnContinue,
            e != DialogueError::ContinueOnOptionSelectionError,
    {
        match instruction {
            Instruction::RunNode { .. } => {},
            Instruction::PushVariable { .. } => {},
            _ => {},
        }
    }

    /// A dispatch run grows by one completed loop iteration.
    proof fn lemma_dispatch_run_grows(
        chain: Seq<Self>,
        before: Self,
        mid: Self,
        post: Self,
        instruction: Instruction,
    )
        requires
            Self::dispatch_run(chain),
            chain.last() == before,
            Self::loop_step_via(before, mid, post, instruction),
        ensures
            Self::dispatch_run(chain.push(post)),
            chain.push(post).first() == chain.first(),
            chain.push(post).last() == post,
    {
        assert(Self::loop_step(before, post)) by {
            reveal(VirtualMachine::loop_step);
            assert(Self::loop_step_via(before, mid, post, instruction));
        }
        let grown = chain.push(post);
        assert(forall|i: int|
            0 <= i < grown.len() - 1 ==> Self::loop_step(#[trigger] grown[i], grown[i + 1])) by {
            assert(forall|i: int|
                0 <= i < chain.len() - 1 ==> (#[trigger] grown[i]) == chain[i] && grown[i + 1]
                    == chain[i + 1]);
            assert(grown[chain.len() - 1] == before && grown[chain.len() as int] == post);
        }
    }

    /// A run that exhausted the step budget while still going is a failed
    /// run.
    proof fn lemma_failed_run_budget(from: Self, fin: Self, chain: Seq<Self>)
        requires
            Self::dispatch_run(chain),
            chain.first() == from,
            chain.last().execution_state == ExecutionState::Running,
            chain.len() == STEP_LIMIT + 1,
            Self::drained(chain.last(), fin),
        ensures
            Self::failed_run(
                from,
                fin,
                DialogueError::Fatal(FatalError::StepLimitReached),
                chain,
            ),
    {
    }

    /// A run whose counter points at no instruction of the current node is
    /// a failed run.
    proof fn lemma_failed_run_counter(from: Self, fin: Self, chain: Seq<Self>)
        requires
            Self::dispatch_run(chain),
            chain.first() == from,
            chain.last().execution_state == ExecutionState::Running,
            (chain.last().current_node matches Some(node) && chain.last().pc()
                >= node.instructions@.len()),
            Self::drained(chain.last(), fin),
        ensures
            Self::failed_run(
                from,
                fin,
                DialogueError::Fatal(FatalError::ProgramCounterOutOfBounds),
                chain,
            ),
    {
    }

    /// A run that was still going when the fetched instruction failed is a
    /// failed run.
    proof fn lemma_failed_run_instruction(
        from: Self,
        fin: Self,
        e: DialogueError,
        chain: Seq<Self>,
        mid: Self,
        instruction: Instruction,
    )
        requires
            Self::dispatch_run(chain),
            chain.first() == from,
            chain.last().execution_state == ExecutionState::Running,
            (chain.last().current_node matches Some(node) && chain.last().pc()
                < node.instructions@.len() && instruction == node.instructions@[chain.last().pc()]),
            Self::run_post(chain.last(), mid, instruction, Err(e)),
            Self::drained(mid, fin),
        ensures
            Self::failed_run(from, fin, e, chain),
    {
        match chain.last().current_node {
            Some(node) => {
                assert(exists|m: Self|
                    Self::run_post(
                        chain.last(),
                        m,
                        node.instructions@[chain.last().pc()],
                        Err(e),
                    ) && Self::drained(m, fin)) by {
                    assert(Self::run_post(
                        chain.last(),
                        mid,
                        node.instructions@[chain.last().pc()],
                        Err(e),
                    ) && Self::drained(mid, fin));
                }
            },
            None => {
                assert(false);
            },
        }
    }

    /// Resumes execution: drains the instruction stream — one dispatch-loop
    /// iteration per instruction, as [`VirtualMachine::loop_step`] describes
    /// it over [`VirtualMachine::run_post`] — until the machine leaves the
    /// running state, then hands the whole batch of buffered events out.
    /// Fails, changing nothing and yielding no events, when no node is
    /// selected or an option selection is pending; an error during the run
    /// discards the batch, so the host never observes a torn one.
    #[verifier::rlimit(100)]
    pub fn continue_(&mut self) -> (r: Result<Vec<DialogueEvent>, DialogueError>)
        requires
            old(self).wf(),
        ensures
            final(self).wf(),
            (old(self).current_node is None || old(self).current_node_name is None) ==> r == Err::<
                Vec<DialogueEvent>,
                DialogueError,
            >(DialogueError::NoNodeSelectedOnContinue) && *final(self) == *old(self),
            (old(self).current_node is Some && old(self).current_node_name is Some && old(
                self,
            ).execution_state == ExecutionState::WaitingOnOptionSelection) ==> r == Err::<
                Vec<DialogueEvent>,
                DialogueError,
            >(DialogueError::ContinueOnOptionSelectionError) && *final(self) == *old(self),
            r == Err::<Vec<DialogueEvent>, DialogueError>(DialogueError::NoNodeSelectedOnContinue)
                ==> (old(self).current_node is None || old(self).current_node_name is None),
            r == Err::<Vec<DialogueEvent>, DialogueError>(
                DialogueError::ContinueOnOptionSelectionError,
            ) ==> old(self).execution_state == ExecutionState::WaitingOnOptionSelection,
            r matches Ok(events) ==> {
                &&& (exists|chain: Seq<Self>|
                    Self::completed_run(
                        Self::set_running(*old(self)),
                        *final(self),
                        events_view(events@),
                        chain,
                    ))
                &&& final(self).batched_events@.len() == 0
                &&& final(self).execution_state != ExecutionState::Running
                &&& events_view(events@).len() > old(self).ev().len()
                &&& old(self).ev().is_prefix_of(events_view(events@))
                &&& Self::installation_unchanged(*old(self), *final(self))
                &&& (final(self).execution_state == ExecutionState::Stopped ==> events_view(
                    events@,
                ).last() == EventV::DialogueComplete)
                &&& (final(self).execution_state == ExecutionState::WaitingForContinue ==> (
                events_view(events@).last() matches EventV::Line(_) || events_view(
                    events@,
                ).last() matches EventV::Command(_)))
                &&& (final(self).execution_state == ExecutionState::WaitingOnOptionSelection
                    ==> events_view(events@).last() matches EventV::Options(_))
            },
            old(self).can_continue() ==> (r matches Err(e) ==> exists|chain: Seq<Self>|
                Self::failed_run(Self::set_running(*old(self)), *final(self), e, chain)),
            r is Err ==> final(self).batched_events@.len() == 0 || *final(self) == *old(self),
    {
        match self.assert_can_continue() {
            Err(e) => {
                return Err(e);
            },
            Ok(_) => {},
        }
        self.set_execution_state(ExecutionState::Running);
        let ghost start = *self;
        let ghost mut chain: Seq<Self> = seq![start];
        let mut fuel: usize = STEP_LIMIT;
        while self.execution_state == ExecutionState::Running
            invariant
                self.wf(),
                old(self).current_node is Some,
                old(self).current_node_name is Some,
                old(self).execution_state != ExecutionState::WaitingOnOptionSelection,
                start == Self::set_running(*old(self)),
                Self::dispatch_run(chain),
                chain.first() == start,
                chain.last() == *self,
                chain.len() + fuel == STEP_LIMIT + 1,
                Self::installation_unchanged(*old(self), *self),
                self.execution_state == ExecutionState::Running ==> self.current_node is Some
                    && self.current_node_name is Some,
                self.current_node is Some,
                old(self).ev().is_prefix_of(self.ev()),
                self.execution_state != ExecutionState::Running ==> self.ev().len() > old(
                    self,
                ).ev().len(),
                self.execution_state == ExecutionState::Stopped ==> self.ev().len() > 0
                    && self.ev().last() == EventV::DialogueComplete,
                self.execution_state == ExecutionState::WaitingForContinue ==> self.ev().len() > 0
                    && (self.ev().last() matches EventV::Line(_) || self.ev().last() matches
                    EventV::Command(_)),
                self.execution_state == ExecutionState::WaitingOnOptionSelection ==> self.ev().len()
                    > 0 && self.ev().last() matches EventV::Options(_),
            decreases fuel,
        {
            if fuel == 0 {
                self.batched_events = Vec::new();
                proof {
                    Self::lemma_failed_run_budget(start, *self, chain);
                }
                return Err(DialogueError::Fatal(FatalError::StepLimitReached));
            }
            fuel = fuel - 1;
            let pc_ok = match &self.current_node {
                Some(node) => self.state.program_counter < node.instructions.len(),
                None => false,
            };
            if !pc_ok {
                self.batched_events = Vec::new();
                proof {
                    Self::lemma_failed_run_counter(start, *self, chain);
                }
                return Err(DialogueError::Fatal(FatalError::ProgramCounterOutOfBounds));
            }
            let (current_instruction, node_len, node_name) = match &self.current_node {
                Some(node) => (
                    node.instructions[self.state.program_counter].duplicate(),
                    node.instructions.len(),
                    node.name.clone(),
                ),
                None => unreached(),
            };
            let ghost before = *self;
            match self.run_instruction(&current_instruction) {
                Err(e) => {
                    let ghost failed_mid = *self;
                    self.batched_events = Vec::new();
                    proof {
                        Self::lemma_run_post_err(before, failed_mid, current_instruction, e);
                        Self::lemma_failed_run_instruction(
                            start,
                            *self,
                            e,
                            chain,
                            failed_mid,
                            current_instruction,
                        );
                    }
                    return Err(e);
                },
                Ok(_) => {},
            }
            let ghost mid = *self;
            proof {
                Self::lemma_run_post_frame(
                    before,
                    *self,
                    current_instruction,
                    Ok::<(), DialogueError>(()),
                );
                lemma_prefix_trans(old(self).ev(), before.ev(), self.ev());
            }
            if self.state.program_counter < node_len {
            } else {
                let complete = DialogueEvent::NodeComplete(node_name);
                proof {
                    lemma_events_view_push(self.batched_events@, complete);
                    lemma_prefix_push(old(self).ev(), self.ev(), complete@);
                }
                self.batched_events.push(complete);
                self.set_execution_state(ExecutionState::Stopped);
                proof {
                    lemma_events_view_push(self.batched_events@, DialogueEvent::DialogueComplete);
                    lemma_prefix_push(old(self).ev(), self.ev(), EventV::DialogueComplete);
                }
                self.batched_events.push(DialogueEvent::DialogueComplete);
            }
            proof {
                assert(Self::loop_step_via(before, mid, *self, current_instruction));
                Self::lemma_dispatch_run_grows(chain, before, mid, *self, current_instruction);
                chain = chain.push(*self);
            }
        }
        let ghost end = *self;
        let mut out: Vec<DialogueEvent> = Vec::new();
        core::mem::swap(&mut out, &mut self.batched_events);
        proof {
            assert(Self::drained(end, *self));
            assert(Self::completed_run(start, *self, events_view(out@), chain));
        }
        Ok(out)
    }
}

/// A sequence opens with itself.
pub proof fn lemma_prefix_refl(s: Seq<EventV>)
    ensures
        s.is_prefix_of(s),
{
    assert(s =~= s.subrange(0, s.len() as int));
}

/// A prefix stays one when the longer sequence grows at its end.
pub proof fn lemma_prefix_push(s: Seq<EventV>, t: Seq<EventV>, x: EventV)
    requires
        s.is_prefix_of(t),
    ensures
        s.is_prefix_of(t.push(x)),
{
    assert(s =~= t.push(x).subrange(0, s.len() as int));
}

/// Being a prefix is transitive.
pub proof fn lemma_prefix_trans(a: Seq<EventV>, b: Seq<EventV>, c: Seq<EventV>)
    requires
        a.is_prefix_of(b),
        b.is_prefix_of(c),
    ensures
        a.is_prefix_of(c),
{
    assert(a =~= c.subrange(0, a.len() as int));
}

impl<V: VariableStorage, F: UntypedYarnFn> VirtualMachine<V, F> {
    /// Offering options with none accumulated always buffers exactly one
    /// dialogue-complete event and stops the machine, whatever the prior
    /// execution state was.
    pub proof fn law_show_options_empty(pre: Self, post: Self, r: Result<(), DialogueError>)
        requires
            Self::run_post(pre, post, Instruction::ShowOptions, r),
            pre.opts().len() == 0,
        ensures
            r is Ok,
            post.ev() == pre.ev().push(EventV::DialogueComplete),
            post.execution_state == ExecutionState::Stopped,
    {
    }

    /// Accumulating options numbers them 0, 1, 2, … in insertion order:
    /// after any run of successful option-accumulating steps from a machine
    /// with an empty batch, the batch holds one option per step and the
    /// option added by each step carries that step's position as its id.
    pub proof fn law_option_batch(machines: Seq<Self>, instructions: Seq<Instruction>)
        requires
            machines.len() == instructions.len() + 1,
            forall|i: int|
                0 <= i < instructions.len() ==> (#[trigger] instructions[i]) matches
                    Instruction::AddOption { .. },
            forall|i: int|
                0 <= i < instructions.len() ==> Self::run_post(
                    machines[i],
                    #[trigger] machines[i + 1],
                    instructions[i],
                    Ok(()),
                ),
            machines[0].opts().len() == 0,
        ensures
            machines.last().opts().len() == instructions.len(),
            forall|i: int|
                0 <= i < instructions.len() ==> (#[trigger] machines.last().opts()[i]).id.0 == i,
        decreases instructions.len(),
    {
        if instructions.len() > 0 {
            let shorter = machines.drop_last();
            let n = instructions.len() - 1;
            assert(forall|i: int|
                0 <= i < instructions.drop_last().len()
                    ==> (#[trigger] instructions.drop_last()[i]) matches Instruction::AddOption {
                    ..
                });
            assert(forall|i: int|
                0 <= i < instructions.drop_last().len() ==> Self::run_post(
                    shorter[i],
                    #[trigger] shorter[i + 1],
                    instructions.drop_last()[i],
                    Ok(()),
                ));
            Self::law_option_batch(shorter, instructions.drop_last());
            assert(Self::run_post(machines[n], machines[n + 1], instructions[n], Ok(())));
            assert(machines.last() == machines[n + 1]);
            assert(shorter.last() == machines[n]);
            let prev = machines[n].opts();
            vstd::std_specs::vec::axiom_spec_len(&machines[n].state.current_options);
            assert(prev.len() == n);
            assert(machines[n + 1].opts().len() == n + 1 && machines[n + 1].opts()[n].id.0 == n
                && (forall|i: int| 0 <= i < n ==> machines[n + 1].opts()[i] == prev[i])) by {
                match instructions[n] {
                    Instruction::AddOption { line_id, destination, has_condition } => {
                        assert(Self::add_option_post(
                            machines[n],
                            machines[n + 1],
                            line_id,
                            destination,
                            has_condition,
                            Ok(()),
                        ));
                    },
                    _ => {
                        assert(false);
                    },
                }
            }
            assert(forall|i: int|
                0 <= i < n ==> (#[trigger] machines.last().opts()[i]).id.0 == i);
        }
    }

    /// Offering a non-empty batch buffers exactly the accumulated options
    /// and leaves the batch itself in place; it is cleared only once a
    /// selection is reported.
    pub proof fn law_show_options_batch(pre: Self, post: Self)
        requires
            Self::run_post(pre, post, Instruction::ShowOptions, Ok(())),
            pre.opts().len() > 0,
        ensures
            post.ev() == pre.ev().push(EventV::Options(pre.opts())),
            post.execution_state == ExecutionState::WaitingOnOptionSelection,
            post.opts() == pre.opts(),
    {
    }

    /// Reading an unset variable whose name has a declared initial value
    /// yields that value and writes it back: an immediately repeated read
    /// observes the very same value and changes the store no further. The
    /// reads here are hypotheses because a host-implemented store may fail;
    /// for a reliable store [`VirtualMachine::push_variable_post`] promises
    /// that both reads succeed.
    pub proof fn law_initial_value_read(pre: Self, mid: Self, post: Self, name: String)
        requires
            Self::run_post(pre, mid, Instruction::PushVariable { variable_name: name }, Ok(())),
            Self::run_post(mid, post, Instruction::PushVariable { variable_name: name }, Ok(())),
            !pre.vars().contains_key(name@),
        ensures
            pre.program matches Some(p) ==> mid.stk().last().raw_value == assoc_map(
                p.initial_values@,
            )[name@],
            mid.vars().contains_key(name@),
            post.stk().last().raw_value == mid.stk().last().raw_value,
            post.vars() == mid.vars(),
    {
    }

    /// One dispatch-loop iteration holds whenever its parts do.
    pub proof fn lemma_loop_step_intro(pre: Self, mid: Self, post: Self, instruction: Instruction)
        requires
            Self::loop_step_via(pre, mid, post, instruction),
        ensures
            Self::loop_step(pre, post),
    {
        reveal(VirtualMachine::loop_step);
    }

    /// One dispatch-loop iteration always has its parts.
    pub proof fn lemma_loop_step_elim(pre: Self, post: Self)
        requires
            Self::loop_step(pre, post),
        ensures
            exists|mid: Self, instruction: Instruction|
                Self::loop_step_via(pre, mid, post, instruction),
    {
        reveal(VirtualMachine::loop_step);
    }

    /// A dispatch-loop iteration whose instruction drives the counter past
    /// the current node's instructions reports that node and the dialogue
    /// complete, in that order at the end of the batch, and stops the
    /// machine.
    pub proof fn law_end_of_node(pre: Self, mid: Self, post: Self, instruction: Instruction)
        requires
            Self::loop_step_via(pre, mid, post, instruction),
            (pre.current_node matches Some(node) ==> mid.pc() >= node.instructions@.len()),
        ensures
            post.execution_state == ExecutionState::Stopped,
            post.ev().len() >= 2,
            post.ev().last() == EventV::DialogueComplete,
            pre.current_node matches Some(node) ==> post.ev()[post.ev().len() - 2]
                == EventV::NodeComplete(node.name@),
    {
    }

    /// Pushing a literal pushes exactly that literal, tagged with its own
    /// kind, on top of an otherwise unchanged stack; reading it back as
    /// that kind therefore yields the value that was pushed.
    pub proof fn law_literal_round_trip(pre: Self, post: Self, instruction: Instruction)
        requires
            Self::run_post(pre, post, instruction, Ok(())),
            instruction matches Instruction::PushString { .. } || instruction matches
                Instruction::PushNumber { .. } || instruction matches Instruction::PushBool { .. },
        ensures
            post.stk().len() == pre.stk().len() + 1,
            post.stk().drop_last() == pre.stk(),
            post.stk().last().wf(),
            instruction matches Instruction::PushBool { value } ==> post.stk().last().raw_value
                == YarnValue::Boolean(value),
            instruction matches Instruction::PushNumber { value } ==> post.stk().last().raw_value
                == YarnValue::Number(value),
            instruction matches Instruction::PushString { value } ==> post.stk().last().raw_value
                == YarnValue::String(value),
    {
        assert(post.stk().drop_last() =~= pre.stk());
    }
}

} // verus!
