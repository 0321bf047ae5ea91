use yarnspinner::{
    Command, DialogueError, DialogueEvent, FatalError, Instruction, InternalValue, Library, Line,
    LineId, MemoryVariableStorage, Node, OptionId, Program, Type, UntypedYarnFn, VariableStorage,
    VariableStorageError, VirtualMachine, YarnValue,
};

// A registry entry backed by a plain function pointer.
#[derive(Clone)]
struct HostFn {
    params: Vec<Type>,
    ret: Type,
    call: fn(Vec<YarnValue>) -> YarnValue,
}

impl UntypedYarnFn for HostFn {
    // The three specification-level members survive compilation as ordinary
    // trait items; they are never invoked at run time.
    fn spec_parameter_types(&self) -> yarnspinner::ParameterKinds {
        unreachable!()
    }

    fn spec_return_type(&self) -> Type {
        unreachable!()
    }

    fn call_rel(&self, _input: yarnspinner::ArgumentValues, _output: YarnValue) -> bool {
        unreachable!()
    }

    fn call(&self, input: Vec<YarnValue>) -> YarnValue {
        (self.call)(input)
    }

    fn parameter_types(&self) -> Vec<Type> {
        self.params.clone()
    }

    fn return_type(&self) -> Type {
        self.ret
    }
}

fn node(name: &str, instructions: Vec<Instruction>) -> Node {
    Node { name: name.to_string(), instructions }
}

fn vm_with(
    nodes: Vec<Node>,
    initial_values: Vec<(String, YarnValue)>,
) -> VirtualMachine<MemoryVariableStorage, HostFn> {
    let mut vm = VirtualMachine::new(Library::new(), MemoryVariableStorage::new());
    vm.program = Some(Program { nodes, initial_values });
    vm
}

fn number(n: i64) -> InternalValue {
    InternalValue { raw_value: YarnValue::Number(n), value_type: Type::Number }
}

#[test]
fn line_scenario_runs_and_completes() {
    let mut vm = vm_with(
        vec![node(
            "Start",
            vec![
                Instruction::PushString { value: "hi".to_string() },
                Instruction::RunLine { line_id: 1, substitution_count: 0 },
                Instruction::Stop,
            ],
        )],
        vec![],
    );
    vm.set_node("Start").unwrap();
    let events = vm.continue_().unwrap();
    assert_eq!(
        events,
        vec![
            DialogueEvent::NodeStart("Start".to_string()),
            DialogueEvent::Line(Line { id: LineId(1) }),
        ]
    );
    assert!(vm.is_active());
    assert!(!vm.is_waiting_for_option_selection());
    let events = vm.continue_().unwrap();
    assert_eq!(
        events,
        vec![
            DialogueEvent::NodeComplete("Start".to_string()),
            DialogueEvent::DialogueComplete,
        ]
    );
    assert!(!vm.is_active());
}

#[test]
fn options_scenario_selects_and_pushes_destination() {
    let mut vm = vm_with(
        vec![node(
            "Menu",
            vec![
                Instruction::AddOption { line_id: 11, destination: 5, has_condition: false },
                Instruction::AddOption { line_id: 12, destination: 7, has_condition: false },
                Instruction::ShowOptions,
                Instruction::PeekAndJump,
            ],
        )],
        vec![],
    );
    vm.set_node("Menu").unwrap();
    let events = vm.continue_().unwrap();
    assert_eq!(events.len(), 2);
    assert_eq!(events[0], DialogueEvent::NodeStart("Menu".to_string()));
    match &events[1] {
        DialogueEvent::Options(options) => {
            assert_eq!(options.len(), 2);
            assert_eq!(options[0].id, OptionId(0));
            assert_eq!(options[0].destination_node, 5);
            assert!(options[0].is_available);
            assert_eq!(options[0].line, Line { id: LineId(11) });
            assert_eq!(options[1].id, OptionId(1));
            assert_eq!(options[1].destination_node, 7);
            assert!(options[1].is_available);
        },
        other => panic!("expected an options event, got {:?}", other),
    }
    assert!(vm.is_waiting_for_option_selection());
    vm.set_selected_option(OptionId(1)).unwrap();
    assert_eq!(vm.state.stack.last(), Some(&number(7)));
    assert_eq!(vm.state.current_options.len(), 0);
    let events = vm.continue_().unwrap();
    assert_eq!(
        events,
        vec![
            DialogueEvent::NodeComplete("Menu".to_string()),
            DialogueEvent::DialogueComplete,
        ]
    );
}

#[test]
fn invalid_node_leaves_current_node_unchanged() {
    let mut vm = vm_with(vec![node("Start", vec![Instruction::Stop])], vec![]);
    vm.set_node("Start").unwrap();
    let before = vm.current_node();
    let result = vm.set_node("Missing");
    assert_eq!(
        result,
        Err(DialogueError::InvalidNode { node_name: "Missing".to_string() })
    );
    assert_eq!(vm.current_node(), before);
    assert_eq!(vm.current_node(), Some("Start".to_string()));
}

#[test]
fn set_node_without_program_fails() {
    let mut vm: VirtualMachine<MemoryVariableStorage, HostFn> =
        VirtualMachine::new(Library::new(), MemoryVariableStorage::new());
    assert_eq!(vm.set_node("Start"), Err(DialogueError::NoProgramLoaded));
}

#[test]
fn show_options_with_no_options_completes_dialogue() {
    let mut vm = vm_with(
        vec![node("Empty", vec![Instruction::ShowOptions, Instruction::Stop])],
        vec![],
    );
    vm.set_node("Empty").unwrap();
    let events = vm.continue_().unwrap();
    assert_eq!(
        events,
        vec![
            DialogueEvent::NodeStart("Empty".to_string()),
            DialogueEvent::DialogueComplete,
        ]
    );
    assert!(!vm.is_active());
}

#[test]
fn selecting_option_out_of_range_fails_with_max_id() {
    let mut vm = vm_with(
        vec![node(
            "Menu",
            vec![
                Instruction::AddOption { line_id: 1, destination: 3, has_condition: false },
                Instruction::AddOption { line_id: 2, destination: 4, has_condition: false },
                Instruction::ShowOptions,
                Instruction::PeekAndJump,
            ],
        )],
        vec![],
    );
    vm.set_node("Menu").unwrap();
    vm.continue_().unwrap();
    let result = vm.set_selected_option(OptionId(2));
    assert_eq!(
        result,
        Err(DialogueError::InvalidOptionIdError {
            selected_option_id: OptionId(2),
            max_id: 1,
        })
    );
    assert!(vm.is_waiting_for_option_selection());
    assert_eq!(vm.state.current_options.len(), 2);
}

#[test]
fn continue_while_waiting_on_selection_fails_without_events() {
    let mut vm = vm_with(
        vec![node(
            "Menu",
            vec![
                Instruction::AddOption { line_id: 1, destination: 3, has_condition: false },
                Instruction::ShowOptions,
                Instruction::PeekAndJump,
            ],
        )],
        vec![],
    );
    vm.set_node("Menu").unwrap();
    vm.continue_().unwrap();
    assert!(vm.is_waiting_for_option_selection());
    assert_eq!(vm.continue_(), Err(DialogueError::ContinueOnOptionSelectionError));
    assert!(vm.is_waiting_for_option_selection());
}

#[test]
fn continue_without_node_fails() {
    let mut vm = vm_with(vec![node("Start", vec![Instruction::Stop])], vec![]);
    assert_eq!(vm.continue_(), Err(DialogueError::NoNodeSelectedOnContinue));
}

#[test]
fn selecting_option_while_not_waiting_fails() {
    let mut vm = vm_with(vec![node("Start", vec![Instruction::Stop])], vec![]);
    assert_eq!(
        vm.set_selected_option(OptionId(0)),
        Err(DialogueError::UnexpectedOptionSelectionError)
    );
}

#[test]
fn unset_variable_falls_back_to_initial_value_and_writes_it_back() {
    let mut vm = vm_with(
        vec![node("Start", vec![Instruction::Stop])],
        vec![("gold".to_string(), YarnValue::Number(42))],
    );
    vm.set_node("Start").unwrap();
    let read = Instruction::PushVariable { variable_name: "gold".to_string() };
    vm.run_instruction(&read).unwrap();
    assert_eq!(vm.state.stack.last(), Some(&number(42)));
    assert_eq!(vm.variable_storage().get("gold"), Ok(YarnValue::Number(42)));
    vm.run_instruction(&read).unwrap();
    assert_eq!(vm.state.stack.last(), Some(&number(42)));
    assert_eq!(vm.variable_storage().get("gold"), Ok(YarnValue::Number(42)));
}

#[test]
fn reading_variable_without_initial_value_is_fatal() {
    let mut vm = vm_with(vec![node("Start", vec![Instruction::Stop])], vec![]);
    vm.set_node("Start").unwrap();
    let read = Instruction::PushVariable { variable_name: "unset".to_string() };
    assert_eq!(
        vm.run_instruction(&read),
        Err(DialogueError::Fatal(FatalError::MissingInitialValue {
            variable_name: "unset".to_string(),
        }))
    );
}

#[test]
fn store_variable_peeks_without_popping() {
    let mut vm = vm_with(vec![node("Start", vec![Instruction::Stop])], vec![]);
    vm.set_node("Start").unwrap();
    vm.run_instruction(&Instruction::PushNumber { value: 9 }).unwrap();
    vm.run_instruction(&Instruction::StoreVariable { variable_name: "x".to_string() }).unwrap();
    assert_eq!(vm.state.stack.len(), 1);
    assert_eq!(vm.state.stack.last(), Some(&number(9)));
    assert_eq!(vm.variable_storage().get("x"), Ok(YarnValue::Number(9)));
}

#[test]
fn literal_round_trip_on_the_stack() {
    let mut vm = vm_with(vec![node("Start", vec![Instruction::Stop])], vec![]);
    vm.set_node("Start").unwrap();
    vm.run_instruction(&Instruction::PushString { value: "hi".to_string() }).unwrap();
    vm.run_instruction(&Instruction::PushNumber { value: -3 }).unwrap();
    vm.run_instruction(&Instruction::PushBool { value: true }).unwrap();
    assert_eq!(
        vm.state.stack.pop(),
        Some(InternalValue { raw_value: YarnValue::Boolean(true), value_type: Type::Boolean })
    );
    assert_eq!(vm.state.stack.pop(), Some(number(-3)));
    assert_eq!(
        vm.state.stack.pop(),
        Some(InternalValue {
            raw_value: YarnValue::String("hi".to_string()),
            value_type: Type::String,
        })
    );
}

#[test]
fn run_command_splices_substitutions_in_pop_order() {
    let mut vm = vm_with(
        vec![node(
            "Start",
            vec![
                Instruction::PushString { value: "world".to_string() },
                Instruction::PushString { value: "hello".to_string() },
                Instruction::RunCommand {
                    command_text: "say {0} {1}".to_string(),
                    substitution_count: 2,
                },
                Instruction::Stop,
            ],
        )],
        vec![],
    );
    vm.set_node("Start").unwrap();
    let events = vm.continue_().unwrap();
    assert_eq!(
        events,
        vec![
            DialogueEvent::NodeStart("Start".to_string()),
            DialogueEvent::Command(Command("say hello world".to_string())),
        ]
    );
    assert_eq!(vm.state.stack.len(), 0);
}

#[test]
fn call_func_pops_arguments_and_pushes_result() {
    fn add(input: Vec<YarnValue>) -> YarnValue {
        let a = match input[0] {
            YarnValue::Number(n) => n,
            _ => panic!("expected a number"),
        };
        let b = match input[1] {
            YarnValue::Number(n) => n,
            _ => panic!("expected a number"),
        };
        YarnValue::Number(a + b)
    }
    let mut vm = vm_with(vec![node("Start", vec![Instruction::Stop])], vec![]);
    vm.library.add(
        "add".to_string(),
        HostFn { params: vec![Type::Number, Type::Number], ret: Type::Number, call: add },
    );
    vm.set_node("Start").unwrap();
    vm.run_instruction(&Instruction::PushNumber { value: 2 }).unwrap();
    vm.run_instruction(&Instruction::PushNumber { value: 3 }).unwrap();
    vm.run_instruction(&Instruction::PushNumber { value: 2 }).unwrap();
    vm.run_instruction(&Instruction::CallFunc { function_name: "add".to_string() }).unwrap();
    assert_eq!(vm.state.stack.len(), 1);
    assert_eq!(vm.state.stack.last(), Some(&number(5)));
}

#[test]
fn calling_unknown_function_reports_the_library() {
    let mut vm = vm_with(vec![node("Start", vec![Instruction::Stop])], vec![]);
    vm.set_node("Start").unwrap();
    vm.run_instruction(&Instruction::PushNumber { value: 0 }).unwrap();
    assert_eq!(
        vm.run_instruction(&Instruction::CallFunc { function_name: "nope".to_string() }),
        Err(DialogueError::FunctionNotFound {
            function_name: "nope".to_string(),
            library: vec![],
        })
    );
}

#[test]
fn stop_call_emits_only_dialogue_complete() {
    let mut vm = vm_with(vec![node("Start", vec![Instruction::Stop])], vec![]);
    vm.set_node("Start").unwrap();
    let events = vm.stop();
    assert_eq!(
        events,
        vec![
            DialogueEvent::NodeStart("Start".to_string()),
            DialogueEvent::DialogueComplete,
        ]
    );
    assert_eq!(vm.current_node(), None);
    assert!(!vm.is_active());
}

#[test]
fn run_node_completes_current_and_starts_next() {
    let mut vm = vm_with(
        vec![
            node("First", vec![Instruction::RunNode { node_name: "Second".to_string() }]),
            node(
                "Second",
                vec![Instruction::RunLine { line_id: 7, substitution_count: 0 }, Instruction::Stop],
            ),
        ],
        vec![],
    );
    vm.set_node("First").unwrap();
    let events = vm.continue_().unwrap();
    assert_eq!(
        events,
        vec![
            DialogueEvent::NodeStart("First".to_string()),
            DialogueEvent::NodeComplete("First".to_string()),
            DialogueEvent::NodeStart("Second".to_string()),
            DialogueEvent::Line(Line { id: LineId(7) }),
        ]
    );
    assert_eq!(vm.current_node(), Some("Second".to_string()));
}

#[test]
fn jump_if_false_peeks_the_condition() {
    let mut vm = vm_with(
        vec![node(
            "Start",
            vec![
                Instruction::PushBool { value: false },
                Instruction::JumpIfFalse { destination: 3 },
                Instruction::Stop,
                Instruction::Pop,
                Instruction::RunLine { line_id: 9, substitution_count: 0 },
                Instruction::Stop,
            ],
        )],
        vec![],
    );
    vm.set_node("Start").unwrap();
    let events = vm.continue_().unwrap();
    assert_eq!(
        events,
        vec![
            DialogueEvent::NodeStart("Start".to_string()),
            DialogueEvent::Line(Line { id: LineId(9) }),
        ]
    );
}

#[test]
fn conditional_option_pops_its_availability() {
    let mut vm = vm_with(
        vec![node(
            "Menu",
            vec![
                Instruction::PushBool { value: false },
                Instruction::AddOption { line_id: 1, destination: 2, has_condition: true },
                Instruction::ShowOptions,
                Instruction::PeekAndJump,
            ],
        )],
        vec![],
    );
    vm.set_node("Menu").unwrap();
    let events = vm.continue_().unwrap();
    match &events[1] {
        DialogueEvent::Options(options) => {
            assert_eq!(options.len(), 1);
            assert!(!options[0].is_available);
        },
        other => panic!("expected an options event, got {:?}", other),
    }
    assert_eq!(vm.state.stack.len(), 0);
}

#[test]
fn reserved_instructions_are_unsupported() {
    let mut vm = vm_with(vec![node("Start", vec![Instruction::Return])], vec![]);
    vm.set_node("Start").unwrap();
    assert_eq!(
        vm.continue_(),
        Err(DialogueError::Fatal(FatalError::UnsupportedInstruction))
    );
}

#[test]
fn pop_on_empty_stack_is_fatal_underflow() {
    let mut vm = vm_with(vec![node("Start", vec![Instruction::Pop])], vec![]);
    vm.set_node("Start").unwrap();
    assert_eq!(
        vm.continue_(),
        Err(DialogueError::Fatal(FatalError::StackUnderflow))
    );
}

#[test]
fn wrong_operand_kind_is_fatal() {
    let mut vm = vm_with(
        vec![node(
            "Start",
            vec![
                Instruction::PushString { value: "not a bool".to_string() },
                Instruction::JumpIfFalse { destination: 0 },
            ],
        )],
        vec![],
    );
    vm.set_node("Start").unwrap();
    assert_eq!(
        vm.continue_(),
        Err(DialogueError::Fatal(FatalError::WrongValueKind { expected: Type::Boolean }))
    );
}

#[test]
fn negative_jump_index_is_fatal() {
    let mut vm = vm_with(
        vec![node(
            "Start",
            vec![Instruction::PushNumber { value: -1 }, Instruction::PeekAndJump],
        )],
        vec![],
    );
    vm.set_node("Start").unwrap();
    assert_eq!(
        vm.continue_(),
        Err(DialogueError::Fatal(FatalError::InvalidNumericIndex))
    );
}

#[test]
fn empty_node_reports_program_counter_out_of_bounds() {
    let mut vm = vm_with(vec![node("Empty", vec![])], vec![]);
    vm.set_node("Empty").unwrap();
    assert_eq!(
        vm.continue_(),
        Err(DialogueError::Fatal(FatalError::ProgramCounterOutOfBounds))
    );
}

#[test]
fn endless_jump_hits_the_step_limit() {
    let mut vm = vm_with(
        vec![node("Loop", vec![Instruction::JumpTo { destination: 0 }])],
        vec![],
    );
    vm.set_node("Loop").unwrap();
    assert_eq!(
        vm.continue_(),
        Err(DialogueError::Fatal(FatalError::StepLimitReached))
    );
}

#[test]
fn unload_programs_keeps_the_running_node() {
    let mut vm = vm_with(
        vec![node(
            "Start",
            vec![Instruction::RunLine { line_id: 1, substitution_count: 0 }, Instruction::Stop],
        )],
        vec![],
    );
    vm.set_node("Start").unwrap();
    vm.continue_().unwrap();
    vm.unload_programs();
    assert!(vm.program.is_none());
    let events = vm.continue_().unwrap();
    assert_eq!(
        events,
        vec![
            DialogueEvent::NodeComplete("Start".to_string()),
            DialogueEvent::DialogueComplete,
        ]
    );
}

// A store that always fails, to observe propagated storage errors.
struct BrokenStorage;

impl VariableStorage for BrokenStorage {
    // The specification-level members survive compilation as ordinary
    // trait items; they are never invoked at run time.
    fn inv(&self) -> bool {
        unreachable!()
    }

    fn reliable(&self) -> bool {
        unreachable!()
    }

    fn variables(&self) -> vstd::map::Map<vstd::seq::Seq<char>, YarnValue> {
        unreachable!()
    }

    fn get(&self, _name: &str) -> Result<YarnValue, VariableStorageError> {
        Err(VariableStorageError::InternalError { message: "backing store is down".to_string() })
    }

    fn set(&mut self, _name: String, _value: YarnValue) -> Result<(), VariableStorageError> {
        Err(VariableStorageError::InternalError { message: "backing store is down".to_string() })
    }
}

#[test]
fn storage_errors_propagate_to_the_host() {
    let mut vm: VirtualMachine<BrokenStorage, HostFn> =
        VirtualMachine::new(Library::new(), BrokenStorage);
    vm.program = Some(Program {
        nodes: vec![node("Start", vec![Instruction::Stop])],
        initial_values: vec![],
    });
    vm.set_node("Start").unwrap();
    vm.run_instruction(&Instruction::PushNumber { value: 1 }).unwrap();
    let expected = VariableStorageError::InternalError { message: "backing store is down".to_string() };
    assert_eq!(
        vm.run_instruction(&Instruction::StoreVariable { variable_name: "x".to_string() }),
        Err(DialogueError::VariableStorageError(expected.clone()))
    );
    assert_eq!(
        vm.run_instruction(&Instruction::PushVariable { variable_name: "x".to_string() }),
        Err(DialogueError::VariableStorageError(expected))
    );
}

#[test]
fn parameter_count_mismatch_is_fatal() {
    fn truth(_input: Vec<YarnValue>) -> YarnValue {
        YarnValue::Boolean(true)
    }
    let mut vm = vm_with(vec![node("Start", vec![Instruction::Stop])], vec![]);
    vm.library.add(
        "truth".to_string(),
        HostFn { params: vec![Type::Boolean], ret: Type::Boolean, call: truth },
    );
    vm.set_node("Start").unwrap();
    vm.run_instruction(&Instruction::PushNumber { value: 0 }).unwrap();
    assert_eq!(
        vm.run_instruction(&Instruction::CallFunc { function_name: "truth".to_string() }),
        Err(DialogueError::Fatal(FatalError::ParameterCountMismatch {
            function_name: "truth".to_string(),
            expected: 1,
            actual: 0,
        }))
    );
}
