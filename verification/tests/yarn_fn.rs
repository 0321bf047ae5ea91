use yarnspinner::{Library, Type, UntypedYarnFn, YarnValue};

// A type-erased adapter over a plain function on marshaled values: the shape
// the registry stores. Each test wraps an ordinary Rust function in one.
#[derive(Clone)]
struct TestFn {
    params: Vec<Type>,
    ret: Type,
    call: fn(Vec<YarnValue>) -> YarnValue,
}

impl UntypedYarnFn for TestFn {
    // The three specification-level members survive compilation as ordinary
    // trait items; they are never invoked at run time.
    fn spec_parameter_types(&self) -> yarnspinner::ParameterKinds {
        unreachable!()
    }

    fn spec_return_type(&self) -> Type {
        unreachable!()
    }

    fn call_rel(&self, _input: yarnspinner::ArgumentValues, _output: YarnValue) -> bool {
        unreachable!()
    }

    fn call(&self, input: Vec<YarnValue>) -> YarnValue {
        (self.call)(input)
    }

    fn parameter_types(&self) -> Vec<Type> {
        self.params.clone()
    }

    fn return_type(&self) -> Type {
        self.ret
    }
}

fn accept_yarn_fn(f: TestFn) {
    let mut library: Library<TestFn> = Library::new();
    library.add("f".to_string(), f);
    assert!(library.get("f").is_some());
}

fn apply_yarn_fn(f: TestFn, input: Vec<YarnValue>) -> YarnValue {
    f.call(input)
}

fn as_string(v: &YarnValue) -> String {
    match v {
        YarnValue::String(s) => s.clone(),
        _ => panic!("expected a string value"),
    }
}

fn as_bool(v: &YarnValue) -> bool {
    match v {
        YarnValue::Boolean(b) => *b,
        _ => panic!("expected a boolean value"),
    }
}

fn as_number(v: &YarnValue) -> i64 {
    match v {
        YarnValue::Number(n) => *n,
        _ => panic!("expected a numeric value"),
    }
}

fn as_usize(v: &YarnValue) -> usize {
    usize::try_from(as_number(v)).expect("expected a non-negative number")
}

#[test]
fn accepts_no_params() {
    fn f() -> bool {
        true
    }
    fn call(input: Vec<YarnValue>) -> YarnValue {
        assert!(input.is_empty());
        YarnValue::Boolean(f())
    }
    accept_yarn_fn(TestFn { params: vec![], ret: Type::Boolean, call });
}

#[test]
fn accepts_string() {
    fn f(_: String) -> bool {
        true
    }
    fn call(input: Vec<YarnValue>) -> YarnValue {
        YarnValue::Boolean(f(as_string(&input[0])))
    }
    accept_yarn_fn(TestFn { params: vec![Type::String], ret: Type::Boolean, call });
}

#[test]
fn accepts_string_ref() {
    fn f(_: &String) -> bool {
        true
    }
    fn call(input: Vec<YarnValue>) -> YarnValue {
        YarnValue::Boolean(f(&as_string(&input[0])))
    }
    accept_yarn_fn(TestFn { params: vec![Type::String], ret: Type::Boolean, call });
}

#[test]
fn accepts_string_slice() {
    fn f(_: &str) -> bool {
        true
    }
    fn call(input: Vec<YarnValue>) -> YarnValue {
        YarnValue::Boolean(f(as_string(&input[0]).as_str()))
    }
    accept_yarn_fn(TestFn { params: vec![Type::String], ret: Type::Boolean, call });
}

#[test]
fn accepts_usize() {
    fn f(_: usize) -> bool {
        true
    }
    fn call(input: Vec<YarnValue>) -> YarnValue {
        YarnValue::Boolean(f(as_usize(&input[0])))
    }
    accept_yarn_fn(TestFn { params: vec![Type::Number], ret: Type::Boolean, call });
}

#[test]
fn accepts_usize_ref() {
    fn f(_: &usize) -> bool {
        true
    }
    fn call(input: Vec<YarnValue>) -> YarnValue {
        YarnValue::Boolean(f(&as_usize(&input[0])))
    }
    accept_yarn_fn(TestFn { params: vec![Type::Number], ret: Type::Boolean, call });
}

#[test]
fn accepts_yarn_value() {
    fn f(_: YarnValue) -> bool {
        true
    }
    fn call(mut input: Vec<YarnValue>) -> YarnValue {
        YarnValue::Boolean(f(input.remove(0)))
    }
    accept_yarn_fn(TestFn { params: vec![Type::String], ret: Type::Boolean, call });
}

#[test]
fn accepts_yarn_value_ref() {
    fn f(_: &YarnValue) -> bool {
        true
    }
    fn call(input: Vec<YarnValue>) -> YarnValue {
        YarnValue::Boolean(f(&input[0]))
    }
    accept_yarn_fn(TestFn { params: vec![Type::String], ret: Type::Boolean, call });
}

#[test]
fn accepts_optional_value() {
    fn f(_: Option<String>) -> bool {
        true
    }
    fn call(input: Vec<YarnValue>) -> YarnValue {
        YarnValue::Boolean(f(input.first().map(as_string)))
    }
    accept_yarn_fn(TestFn { params: vec![Type::String], ret: Type::Boolean, call });
}

#[test]
fn accepts_optional_value_ref() {
    fn f(_: Option<&YarnValue>) -> bool {
        true
    }
    fn call(input: Vec<YarnValue>) -> YarnValue {
        YarnValue::Boolean(f(input.first()))
    }
    accept_yarn_fn(TestFn { params: vec![Type::String], ret: Type::Boolean, call });
}

#[test]
fn accepts_multiple_strings() {
    fn f(s: String, _: String, _: &str, _: String, _: &str) -> String {
        s
    }
    fn call(input: Vec<YarnValue>) -> YarnValue {
        YarnValue::String(f(
            as_string(&input[0]),
            as_string(&input[1]),
            as_string(&input[2]).as_str(),
            as_string(&input[3]),
            as_string(&input[4]).as_str(),
        ))
    }
    let wrapped = TestFn { params: vec![Type::String; 5], ret: Type::String, call };
    accept_yarn_fn(wrapped.clone());
    let input: Vec<YarnValue> = ["a", "b", "c", "d", "e"]
        .iter()
        .map(|s| YarnValue::String(s.to_string()))
        .collect();
    assert_eq!(apply_yarn_fn(wrapped, input), YarnValue::String("a".to_string()));
}

#[test]
fn accepts_lots_of_different_types() {
    #[allow(clippy::too_many_arguments)]
    fn f(
        _: String,
        _: usize,
        _: &str,
        _: &YarnValue,
        _: &bool,
        _: isize,
        _: String,
        _: &u32,
    ) -> bool {
        true
    }
    fn call(input: Vec<YarnValue>) -> YarnValue {
        YarnValue::Boolean(f(
            as_string(&input[0]),
            as_usize(&input[1]),
            as_string(&input[2]).as_str(),
            &input[3],
            &as_bool(&input[4]),
            as_number(&input[5]) as isize,
            as_string(&input[6]),
            &(as_number(&input[7]) as u32),
        ))
    }
    accept_yarn_fn(TestFn {
        params: vec![
            Type::String,
            Type::Number,
            Type::String,
            Type::String,
            Type::Boolean,
            Type::Number,
            Type::String,
            Type::Number,
        ],
        ret: Type::Boolean,
        call,
    });
}

#[test]
fn accepts_tuples() {
    #[allow(clippy::too_many_arguments)]
    fn f(
        _: (String, usize),
        _: usize,
        _: (&str, (&str, &String)),
        _: &YarnValue,
        _: (&bool, bool, bool, (&str, String)),
        _: isize,
        _: String,
        _: &u32,
    ) -> bool {
        true
    }
    fn call(input: Vec<YarnValue>) -> YarnValue {
        let s2 = as_string(&input[3]);
        let s3 = as_string(&input[4]);
        let s9 = as_string(&input[9]);
        YarnValue::Boolean(f(
            (as_string(&input[0]), as_usize(&input[1])),
            as_usize(&input[2]),
            (s2.as_str(), (s3.as_str(), &as_string(&input[5]))),
            &input[6],
            (
                &as_bool(&input[7]),
                as_bool(&input[8]),
                as_bool(&input[8]),
                (s9.as_str(), as_string(&input[10])),
            ),
            as_number(&input[11]) as isize,
            as_string(&input[12]),
            &(as_number(&input[13]) as u32),
        ))
    }
    accept_yarn_fn(TestFn {
        params: vec![
            Type::String,
            Type::Number,
            Type::Number,
            Type::String,
            Type::String,
            Type::String,
            Type::String,
            Type::Boolean,
            Type::Boolean,
            Type::String,
            Type::String,
            Type::Number,
            Type::String,
            Type::Number,
        ],
        ret: Type::Boolean,
        call,
    });
}

#[test]
fn unpacks_tuples_in_right_order() {
    #[allow(clippy::too_many_arguments)]
    fn f(a: usize, (b, c): (usize, usize), d: usize, (e, f, g): (usize, usize, usize)) -> bool {
        a == 1 && b == 2 && c == 3 && d == 4 && e == 5 && f == 6 && g == 7
    }
    fn call(input: Vec<YarnValue>) -> YarnValue {
        YarnValue::Boolean(f(
            as_usize(&input[0]),
            (as_usize(&input[1]), as_usize(&input[2])),
            as_usize(&input[3]),
            (as_usize(&input[4]), as_usize(&input[5]), as_usize(&input[6])),
        ))
    }
    let wrapped = TestFn { params: vec![Type::Number; 7], ret: Type::Boolean, call };
    let input: Vec<YarnValue> = (1..=7).map(YarnValue::Number).collect();
    let result = apply_yarn_fn(wrapped, input);
    assert!(as_bool(&result));
}

#[test]
fn accepts_function_with_single_tuple_param() {
    fn f(_: (usize, isize, (String, &str))) -> bool {
        true
    }
    fn call(input: Vec<YarnValue>) -> YarnValue {
        let s = as_string(&input[3]);
        YarnValue::Boolean(f((
            as_usize(&input[0]),
            as_number(&input[1]) as isize,
            (as_string(&input[2]), s.as_str()),
        )))
    }
    accept_yarn_fn(TestFn {
        params: vec![Type::Number, Type::Number, Type::String, Type::String],
        ret: Type::Boolean,
        call,
    });
}
