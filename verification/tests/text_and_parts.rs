use yarnspinner::{
    format_usize, normalize, number_as_index, replace_all, splice_substitutions, InternalValue,
    Library, MemoryVariableStorage, Position, Type, UntypedYarnFn, VariableStorage,
    VariableStorageError, YarnValue,
};

#[derive(Clone)]
struct ConstFn {
    value: bool,
}

impl UntypedYarnFn for ConstFn {
    // The three specification-level members survive compilation as ordinary
    // trait items; they are never invoked at run time.
    fn spec_parameter_types(&self) -> yarnspinner::ParameterKinds {
        unreachable!()
    }

    fn spec_return_type(&self) -> Type {
        unreachable!()
    }

    fn call_rel(&self, _input: yarnspinner::ArgumentValues, _output: YarnValue) -> bool {
        unreachable!()
    }

    fn call(&self, _input: Vec<YarnValue>) -> YarnValue {
        YarnValue::Boolean(self.value)
    }

    fn parameter_types(&self) -> Vec<Type> {
        vec![]
    }

    fn return_type(&self) -> Type {
        Type::Boolean
    }
}

#[test]
fn normalize_composes_combining_marks() {
    let composed = normalize("e\u{0301}");
    assert_eq!(composed, "\u{00e9}");
    assert_eq!(composed.chars().count(), 1);
    assert_eq!(normalize(""), "");
    assert_eq!(normalize("plain"), "plain");
}

#[test]
fn format_usize_writes_decimal_numerals() {
    assert_eq!(format_usize(0), "0");
    assert_eq!(format_usize(7), "7");
    assert_eq!(format_usize(10), "10");
    assert_eq!(format_usize(1230), "1230");
    assert_eq!(format_usize(usize::MAX).parse::<usize>().unwrap(), usize::MAX);
}

#[test]
fn replace_all_scans_left_to_right_without_overlap() {
    assert_eq!(replace_all("aaa", "aa", "b"), "ba");
    assert_eq!(replace_all("say {0}", "{0}", "hi"), "say hi");
    assert_eq!(replace_all("none here", "{0}", "hi"), "none here");
    assert_eq!(replace_all("", "{0}", "hi"), "");
    assert_eq!(replace_all("x{0}y{0}z", "{0}", "-"), "x-y-z");
}

#[test]
fn splice_substitutions_fills_placeholders_in_order() {
    let subs = vec!["one".to_string(), "two".to_string()];
    assert_eq!(splice_substitutions("{1} and {0}".to_string(), &subs), "two and one");
    let chained = vec!["{1}".to_string(), "deep".to_string()];
    assert_eq!(splice_substitutions("{0}".to_string(), &chained), "deep");
    let none: Vec<String> = vec![];
    assert_eq!(splice_substitutions("{0}".to_string(), &none), "{0}");
}

#[test]
fn number_as_index_accepts_exactly_machine_indices() {
    assert_eq!(number_as_index(0), Some(0));
    assert_eq!(number_as_index(41), Some(41));
    assert_eq!(number_as_index(-1), None);
}

#[test]
fn memory_storage_reads_back_what_it_stores() {
    let mut storage = MemoryVariableStorage::new();
    assert_eq!(
        storage.get("x"),
        Err(VariableStorageError::VariableNotFound { name: "x".to_string() })
    );
    storage.set("x".to_string(), YarnValue::Number(1)).unwrap();
    storage.set("y".to_string(), YarnValue::String("hi".to_string())).unwrap();
    assert_eq!(storage.get("x"), Ok(YarnValue::Number(1)));
    assert_eq!(storage.get("y"), Ok(YarnValue::String("hi".to_string())));
    storage.set("x".to_string(), YarnValue::Boolean(true)).unwrap();
    assert_eq!(storage.get("x"), Ok(YarnValue::Boolean(true)));
}

#[test]
fn library_registers_and_replaces_functions() {
    let mut library: Library<ConstFn> = Library::new();
    assert!(library.get("truth").is_none());
    library.add("truth".to_string(), ConstFn { value: false });
    library.add("other".to_string(), ConstFn { value: false });
    library.add("truth".to_string(), ConstFn { value: true });
    let f = library.get("truth").unwrap();
    assert_eq!(f.call(vec![]), YarnValue::Boolean(true));
    assert_eq!(library.names(), vec!["truth".to_string(), "other".to_string()]);
}

#[test]
fn internal_values_carry_their_own_kind() {
    let v = InternalValue::of(YarnValue::String("s".to_string()));
    assert_eq!(v.value_type, Type::String);
    assert_eq!(v.as_bool(), None);
    let b = InternalValue::of(YarnValue::Boolean(true));
    assert_eq!(b.value_type, Type::Boolean);
    assert_eq!(b.as_bool(), Some(true));
    let n = InternalValue::of(YarnValue::Number(-4));
    assert_eq!(n.value_type, Type::Number);
    assert_eq!(n.as_number(), Some(-4));
    assert_eq!(n.clone().into_string(), None);
    assert_eq!(
        v.into_string(),
        Some("s".to_string())
    );
}

#[test]
fn positions_compare_by_their_fields() {
    let a = Position { line: 1, character: 2 };
    let b = Position { line: 1, character: 2 };
    assert_eq!(a, b);
    assert_ne!(a, Position { line: 1, character: 3 });
}
