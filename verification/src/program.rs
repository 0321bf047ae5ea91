use vstd::prelude::*;
use crate::assoc::keys_unique;
use crate::value::YarnValue;

verus! {

/// One bytecode operation the machine executes.
#[derive(Debug, Clone, PartialEq)]
pub enum Instruction {
    /// Jumps to an absolute instruction index within the current node.
    JumpTo {
        /// The instruction index to jump to.
        destination: u32,
    },
    /// Peeks an index from the top of the stack and jumps to it.
    PeekAndJump,
    /// Jumps to the given index when the boolean at the top of the stack is
    /// false; the boolean is peeked, not popped.
    JumpIfFalse {
        /// The instruction index to jump to.
        destination: u32,
    },
    /// Pushes a string literal onto the stack.
    PushString {
        /// The literal to push.
        value: String,
    },
    /// Pushes a numeric literal onto the stack.
    PushNumber {
        /// The literal to push.
        value: i64,
    },
    /// Pushes a boolean literal onto the stack.
    PushBool {
        /// The literal to push.
        value: bool,
    },
    /// Discards the value at the top of the stack.
    Pop,
    /// Pops the substitutions off the stack, emits the line to the host and
    /// pauses until the host continues.
    RunLine {
        /// The identifier of the line in the string table.
        line_id: u32,
        /// How many substitution values to pop; the machine discards them,
        /// since substitution into the line's text is the host's business.
        substitution_count: usize,
    },
    /// Pops string substitutions off the stack, splices them into the
    /// command text, emits the command and pauses until the host continues.
    RunCommand {
        /// The command text, with `{0}`, `{1}`, … placeholders.
        command_text: String,
        /// How many substitution strings to pop.
        substitution_count: usize,
    },
    /// Accumulates one dialogue option; emits nothing yet.
    AddOption {
        /// The identifier of the option's line.
        line_id: u32,
        /// The instruction index the option leads to.
        destination: u32,
        /// Whether an availability boolean is to be popped off the stack.
        has_condition: bool,
    },
    /// Offers the accumulated options to the host, or stops when there are
    /// none.
    ShowOptions,
    /// Calls a registered function: pops the argument count and then that
    /// many arguments, and pushes the function's result.
    CallFunc {
        /// The registered name of the function.
        function_name: String,
    },
    /// Pushes a variable's value, falling back to the program's declared
    /// initial value when the store does not know the name.
    PushVariable {
        /// The variable to read.
        variable_name: String,
    },
    /// Writes the value at the top of the stack (peeked, not popped) to the
    /// variable store.
    StoreVariable {
        /// The variable to write.
        variable_name: String,
    },
    /// Stops the run, reporting the node and the dialogue complete.
    Stop,
    /// Completes the current node and starts the named one from its top.
    RunNode {
        /// The node to run next.
        node_name: String,
    },
    /// Pops a node name off the stack and starts that node from its top.
    PeekAndRunNode,
    /// Reserved; executing it is an unsupported-instruction condition.
    DetourToNode,
    /// Reserved; executing it is an unsupported-instruction condition.
    PeekAndDetourToNode,
    /// Reserved; executing it is an unsupported-instruction condition.
    Return,
    /// Reserved; executing it is an unsupported-instruction condition.
    AddSaliencyCandidate,
    /// Reserved; executing it is an unsupported-instruction condition.
    AddSaliencyCandidateFromNode,
    /// Reserved; executing it is an unsupported-instruction condition.
    SelectSaliencyCandidate,
}

impl Instruction {
    /// An exact copy of this instruction.
    pub fn duplicate(&self) -> (r: Self)
        ensures
            r == *self,
    {
        match self {
            Instruction::JumpTo { destination } => Instruction::JumpTo { destination: *destination },
            Instruction::PeekAndJump => Instruction::PeekAndJump,
            Instruction::JumpIfFalse { destination } => Instruction::JumpIfFalse {
                destination: *destination,
            },
            Instruction::PushString { value } => Instruction::PushString { value: value.clone() },
            Instruction::PushNumber { value } => Instruction::PushNumber { value: *value },
            Instruction::PushBool { value } => Instruction::PushBool { value: *value },
            Instruction::Pop => Instruction::Pop,
            Instruction::RunLine { line_id, substitution_count } => Instruction::RunLine {
                line_id: *line_id,
                substitution_count: *substitution_count,
            },
            Instruction::RunCommand { command_text, substitution_count } => Instruction::RunCommand {
                command_text: command_text.clone(),
                substitution_count: *substitution_count,
            },
            Instruction::AddOption { line_id, destination, has_condition } => Instruction::AddOption {
                line_id: *line_id,
                destination: *destination,
                has_condition: *has_condition,
            },
            Instruction::ShowOptions => Instruction::ShowOptions,
            Instruction::CallFunc { function_name } => Instruction::CallFunc {
                function_name: function_name.clone(),
            },
            Instruction::PushVariable { variable_name } => Instruction::PushVariable {
                variable_name: variable_name.clone(),
            },
            Instruction::StoreVariable { variable_name } => Instruction::StoreVariable {
                variable_name: variable_name.clone(),
            },
            Instruction::Stop => Instruction::Stop,
            Instruction::RunNode { node_name } => Instruction::RunNode {
                node_name: node_name.clone(),
            },
            Instruction::PeekAndRunNode => Instruction::PeekAndRunNode,
            Instruction::DetourToNode => Instruction::DetourToNode,
            Instruction::PeekAndDetourToNode => Instruction::PeekAndDetourToNode,
            Instruction::Return => Instruction::Return,
            Instruction::AddSaliencyCandidate => Instruction::AddSaliencyCandidate,
            Instruction::AddSaliencyCandidateFromNode => Instruction::AddSaliencyCandidateFromNode,
            Instruction::SelectSaliencyCandidate => Instruction::SelectSaliencyCandidate,
        }
    }
}

/// A named, ordered sequence of instructions; the unit of navigation within
/// a dialogue program.
#[derive(Debug, Clone, PartialEq)]
pub struct Node {
    /// The node's name, unique within its program.
    pub name: String,
    /// The node's instructions, in execution order.
    pub instructions: Vec<Instruction>,
}

/// The two nodes carry the same name and the same instructions.
pub open spec fn same_node(a: Node, b: Node) -> bool {
    a.name == b.name && a.instructions@ == b.instructions@
}

impl Node {
    /// An exact copy of this node.
    pub fn duplicate(&self) -> (r: Self)
        ensures
            same_node(r, *self),
    {
        let mut instructions: Vec<Instruction> = Vec::new();
        let mut i: usize = 0;
        while i < self.instructions.len()
            invariant
                i <= self.instructions@.len(),
                instructions@ == self.instructions@.take(i as int),
            decreases self.instructions@.len() - i,
        {
            instructions.push(self.instructions[i].duplicate());
            proof {
                assert(instructions@ =~= self.instructions@.take(i + 1 as int));
            }
            i = i + 1;
        }
        proof {
            assert(instructions@ =~= self.instructions@);
        }
        Node { name: self.name.clone(), instructions }
    }
}

/// Some node of the sequence carries the given name.
pub open spec fn has_node(nodes: Seq<Node>, name: Seq<char>) -> bool {
    exists|i: int| 0 <= i < nodes.len() && nodes[i].name@ == name
}

/// No two nodes of the sequence share a name.
pub open spec fn node_names_unique(nodes: Seq<Node>) -> bool {
    forall|i: int, j: int| 0 <= i < j < nodes.len() ==> nodes[i].name@ != nodes[j].name@
}

/// The immutable compiled artifact: all nodes and the declared initial
/// values of variables.
#[derive(Debug, Clone, PartialEq)]
pub struct Program {
    /// The program's nodes. Names are unique (see [`Program::wf`]).
    pub nodes: Vec<Node>,
    /// The declared initial value of each variable the program knows a
    /// default for. Names are unique (see [`Program::wf`]).
    pub initial_values: Vec<(String, YarnValue)>,
}

impl Program {
    /// Node names and initial-value names are unique.
    pub open spec fn wf(&self) -> bool {
        &&& node_names_unique(self.nodes@)
        &&& keys_unique(self.initial_values@)
    }

    /// Looks a node up by name.
    pub fn node_with_name<'a>(&'a self, name: &str) -> (r: Option<&'a Node>)
        ensures
            match r {
                Some(n) => n.name@ == name@ && exists|i: int|
                    0 <= i < self.nodes@.len() && self.nodes@[i] == *n,
                None => !has_node(self.nodes@, name@),
            },
    {
        let key = name.to_owned();
        let mut i: usize = 0;
        while i < self.nodes.len()
            invariant
                key@ == name@,
                i <= self.nodes@.len(),
                forall|j: int| 0 <= j < i ==> self.nodes@[j].name@ != name@,
            decreases self.nodes@.len() - i,
        {
            if self.nodes[i].name == key {
                return Some(&self.nodes[i]);
            }
            i = i + 1;
        }
        None
    }
}

} // verus!
