use napi::{decide, FnArg, Pattern, Rejection, Signature};

fn typed(name: &str, ty: &str) -> FnArg {
    FnArg::Typed { pat: Pattern::Ident(name.to_string()), ty: ty.to_string() }
}

fn function(name: &str, inputs: Vec<FnArg>) -> Option<Signature> {
    Some(Signature { ident: name.to_string(), inputs })
}

fn symbol(name: &str) -> Option<String> {
    Some(name.to_string())
}

#[test]
fn decide_plans_the_trampoline_of_add() {
    let add = function(
        "add",
        vec![
            typed("env", "napi::Env"),
            typed("first", "napi::Number"),
            typed("second", "napi::Number"),
        ],
    );
    let plan = decide(symbol("example_add"), add).unwrap();
    assert_eq!(plan.c_name, "example_add");
    assert_eq!(plan.rs_name, "add");
    assert_eq!(plan.arguments.count, 2);
    assert_eq!(plan.arguments.bindings.len(), 2);
    assert_eq!(plan.arguments.bindings[0].name, "fn_arg_first");
    assert_eq!(plan.arguments.bindings[0].ty, "napi::Number");
    assert_eq!(plan.arguments.bindings[0].index, 0);
    assert_eq!(plan.arguments.bindings[1].name, "fn_arg_second");
    assert_eq!(plan.arguments.bindings[1].ty, "napi::Number");
    assert_eq!(plan.arguments.bindings[1].index, 1);
}

#[test]
fn decide_plans_a_function_of_the_environment_alone() {
    let hello = function("hello", vec![typed("env", "napi::Env")]);
    let plan = decide(symbol("example_hello"), hello).unwrap();
    assert_eq!(plan.c_name, "example_hello");
    assert_eq!(plan.rs_name, "hello");
    assert_eq!(plan.arguments.count, 0);
    assert!(plan.arguments.bindings.is_empty());
}

#[test]
fn decide_keeps_the_type_as_written() {
    let sum = function(
        "sum_of_squares_seq",
        vec![typed("env", "napi :: Env"), typed("array", "napi :: Float64Array < '_ >")],
    );
    let plan = decide(symbol("sum_of_squares_seq_js"), sum).unwrap();
    assert_eq!(plan.rs_name, "sum_of_squares_seq");
    assert_eq!(plan.arguments.bindings[0].name, "fn_arg_array");
    assert_eq!(plan.arguments.bindings[0].ty, "napi :: Float64Array < '_ >");
}

#[test]
fn decide_refuses_a_missing_symbol_first() {
    let env_only = function("f", vec![typed("env", "Env")]);
    assert_eq!(decide(None, env_only).unwrap_err(), Rejection::Symbol);
    assert_eq!(decide(None, None).unwrap_err(), Rejection::Symbol);
    assert_eq!(decide(None, function("f", vec![])).unwrap_err(), Rejection::Symbol);
}

#[test]
fn decide_refuses_a_missing_function() {
    assert_eq!(decide(symbol("s"), None).unwrap_err(), Rejection::Function);
}

#[test]
fn decide_refuses_arguments_that_are_no_plain_names() {
    assert_eq!(decide(symbol("s"), function("f", vec![])).unwrap_err(), Rejection::Argument);
    let tuple = function(
        "f",
        vec![
            typed("env", "Env"),
            FnArg::Typed { pat: Pattern::Other, ty: "(u8, u8)".to_string() },
        ],
    );
    assert_eq!(decide(symbol("s"), tuple).unwrap_err(), Rejection::Argument);
    let method = function("f", vec![typed("env", "Env"), FnArg::Receiver]);
    assert_eq!(decide(symbol("s"), method).unwrap_err(), Rejection::Argument);
    let late = function(
        "f",
        vec![typed("env", "Env"), typed("a", "Number"), FnArg::Receiver, typed("b", "Number")],
    );
    assert_eq!(decide(symbol("s"), late).unwrap_err(), Rejection::Argument);
}

#[test]
fn decide_looks_at_no_pattern_of_the_first_parameter() {
    let free = function("f", vec![FnArg::Receiver, typed("x", "Any")]);
    let plan = decide(symbol("s"), free).unwrap();
    assert_eq!(plan.c_name, "s");
    assert_eq!(plan.rs_name, "f");
    assert_eq!(plan.arguments.count, 1);
    assert_eq!(plan.arguments.bindings[0].name, "fn_arg_x");
    assert_eq!(plan.arguments.bindings[0].index, 0);
}
