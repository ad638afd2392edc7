use napi::{
    add, is_representable, leave, make_args, make_callback, return_error, to_decimal, Any, Call,
    ElementKind, Env, Error, ErrorClass, ErrorKind, FnArg, Number, Pattern, Payload, Predicate,
    Query, Reply, Script, Session, Signature, Status, Trampoline, Value, ValueType, Variant,
};

fn ok(payload: Payload) -> Reply {
    Reply { status: Status::Success, payload }
}

fn failed(status: Status) -> Reply {
    Reply { status, payload: Payload::Nothing }
}

fn session(replies: Vec<Reply>) -> Session<Script> {
    Session::new(Script::new(replies))
}

fn env() -> Env {
    Env::from(0x1000usize)
}

fn arguments(count: usize, handles: Vec<usize>) -> Reply {
    ok(Payload::Arguments { count, handles })
}

fn arity_case(declared: usize, actual: usize, message: &str) {
    let trampoline = Trampoline::new(vec![Variant::Number; declared]);
    let handles: Vec<usize> = (0..actual.min(declared)).map(|at| 100 + at).collect();
    let mut host = session(vec![
        arguments(actual, handles),
        ok(Payload::Handle(90)),
        ok(Payload::Handle(91)),
        ok(Payload::Nothing),
        ok(Payload::Handle(1)),
        ok(Payload::Tag(ValueType::Number)),
    ]);
    let result = trampoline.enter(&mut host, env(), 0x2000);
    assert_eq!(result.unwrap_err(), 1);
    assert_eq!(
        host.host().calls(),
        &vec![
            Call::Ask(Query::GetCallbackInfo { info: 0x2000, capacity: declared }),
            Call::CreateStringUtf8(message.to_string()),
            Call::Ask(Query::CreateError { class: ErrorClass::TypeError, message: 90 }),
            Call::Ask(Query::Throw { exception: 91 }),
            Call::Ask(Query::GetUndefined),
        ]
    );
    assert_eq!(host.host().remaining(), 1);
}

#[test]
fn arity_mismatch_is_a_type_error() {
    arity_case(2, 0, "Expected 2 arguments, but got 0");
    arity_case(2, 1, "Expected 2 arguments, but got 1");
    arity_case(2, 3, "Expected 2 arguments, but got 3");
    arity_case(2, 7, "Expected 2 arguments, but got 7");
    arity_case(12, 11, "Expected 12 arguments, but got 11");
    arity_case(1, 100, "Expected 1 arguments, but got 100");
}

#[test]
fn arity_zero_is_checked_too() {
    arity_case(0, 1, "Expected 0 arguments, but got 1");
    arity_case(0, 5, "Expected 0 arguments, but got 5");
    let trampoline = Trampoline::new(vec![]);
    assert_eq!(trampoline.arity(), 0);
    let mut host = session(vec![arguments(0, vec![])]);
    let entered = trampoline.enter(&mut host, env(), 0x2000).unwrap();
    assert!(entered.is_empty());
    assert_eq!(host.host().calls().len(), 1);
}

#[test]
fn entry_validates_the_arguments_in_order() {
    let trampoline = Trampoline::new(vec![Variant::Number, Variant::Array, Variant::Any]);
    assert_eq!(trampoline.arity(), 3);
    let mut host = session(vec![
        arguments(3, vec![101, 102, 103]),
        ok(Payload::Tag(ValueType::Number)),
        ok(Payload::Flag(true)),
    ]);
    let entered = trampoline.enter(&mut host, env(), 0x2000).unwrap();
    assert_eq!(entered.len(), 3);
    assert_eq!(entered[0].to_number().unwrap().as_sys_value(), 101);
    assert_eq!(entered[1].to_array().unwrap().as_sys_value(), 102);
    assert_eq!(entered[2].to_any().unwrap().as_sys_value(), 103);
    assert_eq!(
        host.host().calls(),
        &vec![
            Call::Ask(Query::GetCallbackInfo { info: 0x2000, capacity: 3 }),
            Call::Ask(Query::TypeOf { value: 101 }),
            Call::Ask(Query::Test { predicate: Predicate::Array, value: 102 }),
        ]
    );
}

#[test]
fn entry_stops_at_the_first_refused_argument() {
    for failing in 0..3 {
        let trampoline = Trampoline::new(vec![Variant::Number; 3]);
        let mut replies = vec![arguments(3, vec![101, 102, 103])];
        for _ in 0..failing {
            replies.push(ok(Payload::Tag(ValueType::Number)));
        }
        replies.push(ok(Payload::Tag(ValueType::String)));
        replies.push(ok(Payload::Handle(90)));
        replies.push(ok(Payload::Handle(91)));
        replies.push(ok(Payload::Nothing));
        replies.push(ok(Payload::Handle(1)));
        replies.push(ok(Payload::Tag(ValueType::Number)));
        let mut host = session(replies);
        let result = trampoline.enter(&mut host, env(), 0x2000);
        assert_eq!(result.unwrap_err(), 1);
        let calls = host.host().calls();
        assert_eq!(calls.len(), 1 + failing + 1 + 4);
        for at in 0..=failing {
            assert_eq!(calls[1 + at], Call::Ask(Query::TypeOf { value: 101 + at }));
        }
        assert_eq!(
            calls[2 + failing..],
            vec![
                Call::CreateStringUtf8("Number expected".to_string()),
                Call::Ask(Query::CreateError { class: ErrorClass::TypeError, message: 90 }),
                Call::Ask(Query::Throw { exception: 91 }),
                Call::Ask(Query::GetUndefined),
            ]
        );
        assert_eq!(host.host().remaining(), 1);
    }
}

#[test]
fn entry_throws_when_the_arguments_cannot_be_had() {
    let trampoline = Trampoline::new(vec![Variant::Number]);
    let mut host =
        session(vec![failed(Status::InvalidArg), ok(Payload::Nothing), ok(Payload::Handle(1))]);
    assert_eq!(trampoline.enter(&mut host, env(), 0x2000).unwrap_err(), 1);
    assert_eq!(
        host.host().calls()[1..],
        vec![
            Call::ThrowError("NapiError: invalid argument".to_string()),
            Call::Ask(Query::GetUndefined),
        ]
    );
}

#[test]
fn entry_reads_a_missing_handle_as_null() {
    let trampoline = Trampoline::new(vec![Variant::Any, Variant::Any]);
    let mut host = session(vec![arguments(2, vec![101])]);
    let entered = trampoline.enter(&mut host, env(), 0x2000).unwrap();
    assert_eq!(entered[0].as_sys_value(), 101);
    assert_eq!(entered[1].as_sys_value(), 0);
}

#[test]
fn entry_takes_typed_arrays_by_their_kind() {
    let trampoline = Trampoline::new(vec![Variant::TypedArray(ElementKind::Float64)]);
    let view =
        Payload::View { kind: ElementKind::Float64, len: 3, data: 0x7000, buffer: 44, offset: 0 };
    let mut host = session(vec![arguments(1, vec![101]), ok(Payload::Flag(true)), ok(view)]);
    let entered = trampoline.enter(&mut host, env(), 0x2000).unwrap();
    let array = entered[0].to_typed_array::<napi::Float64ArrayElement>().unwrap();
    assert_eq!(array.len(), 3);
    assert_eq!(array.as_ptr(), 0x7000);
}

#[test]
fn the_attached_exception_is_thrown_as_it_is() {
    for exception in [1usize, 42, usize::MAX] {
        let error = Error {
            kind: ErrorKind::ApplicationError,
            message: Some("ignored".to_string()),
            exception: Some(exception),
        };
        let mut host = session(vec![ok(Payload::Nothing), ok(Payload::Handle(5))]);
        assert_eq!(return_error(&mut host, env(), &error), 5);
        assert_eq!(
            host.host().calls(),
            &vec![Call::Ask(Query::Throw { exception }), Call::Ask(Query::GetUndefined)]
        );
    }
}

#[test]
fn an_error_without_exception_is_thrown_as_text() {
    let error = Error {
        kind: ErrorKind::GenericFailure,
        message: Some("disk full".to_string()),
        exception: None,
    };
    let mut host = session(vec![ok(Payload::Nothing), ok(Payload::Handle(5))]);
    assert_eq!(return_error(&mut host, env(), &error), 5);
    assert_eq!(
        host.host().calls(),
        &vec![
            Call::ThrowError("NapiError: generic failure (disk full)".to_string()),
            Call::Ask(Query::GetUndefined),
        ]
    );
}

#[test]
fn a_text_with_nul_falls_back_to_the_description() {
    let error = Error {
        kind: ErrorKind::Cancelled,
        message: Some("a\0b".to_string()),
        exception: None,
    };
    let mut host = session(vec![ok(Payload::Nothing), ok(Payload::Handle(5))]);
    return_error(&mut host, env(), &error);
    assert_eq!(host.host().calls()[0], Call::ThrowError("NapiError: cancelled".to_string()));
    assert!(is_representable("plain"));
    assert!(is_representable(""));
    assert!(!is_representable("\0"));
    assert!(!is_representable("ab\0"));
}

#[test]
fn the_placeholder_is_what_the_host_hands_back_whatever_the_status() {
    let error = Error { kind: ErrorKind::Cancelled, message: None, exception: None };
    let mut host = session(vec![failed(Status::PendingException), failed(Status::GenericFailure)]);
    assert_eq!(return_error(&mut host, env(), &error), 0);
    assert_eq!(host.host().calls().len(), 2);
}

#[test]
fn leaving_hands_back_the_value_or_throws() {
    let mut host = session(vec![ok(Payload::Nothing), ok(Payload::Handle(5))]);
    let value: Result<Any, Error> = Ok(Any::with_value(env(), 77));
    assert_eq!(leave(&mut host, env(), value), 77);
    assert!(host.host().calls().is_empty());
    let error: Result<Any, Error> =
        Err(Error { kind: ErrorKind::ApplicationError, message: None, exception: Some(9) });
    assert_eq!(leave(&mut host, env(), error), 5);
    assert_eq!(host.host().calls()[0], Call::Ask(Query::Throw { exception: 9 }));
}

fn run_add(first: i32, second: i32) -> Vec<Call> {
    let trampoline = Trampoline::new(vec![Variant::Number, Variant::Number]);
    let mut host = session(vec![
        arguments(2, vec![101, 102]),
        ok(Payload::Tag(ValueType::Number)),
        ok(Payload::Tag(ValueType::Number)),
        ok(Payload::Int32(first)),
        ok(Payload::Int32(second)),
        ok(Payload::Handle(200)),
    ]);
    let entered = trampoline.enter(&mut host, env(), 0x2000).unwrap();
    let left = entered[0].to_number().unwrap().to_i32(&mut host).unwrap();
    let right = entered[1].to_number().unwrap().to_i32(&mut host).unwrap();
    let sum = Number::from_i32(&mut host, env(), add(left, right));
    assert_eq!(leave(&mut host, env(), sum), 200);
    host.into_host().calls().clone()
}

#[test]
fn add_two_and_three() {
    assert_eq!(add(2, 3), 5);
    assert_eq!(run_add(2, 3).last(), Some(&Call::Ask(Query::CreateInt32 { value: 5 })));
}

#[test]
fn add_minus_one_and_one() {
    assert_eq!(add(-1, 1), 0);
    assert_eq!(run_add(-1, 1).last(), Some(&Call::Ask(Query::CreateInt32 { value: 0 })));
}

#[test]
fn decimal_digits() {
    assert_eq!(to_decimal(0), "0");
    assert_eq!(to_decimal(7), "7");
    assert_eq!(to_decimal(10), "10");
    assert_eq!(to_decimal(1234567890), "1234567890");
    assert_eq!(to_decimal(usize::MAX), usize::MAX.to_string());
}

fn typed(name: &str, ty: &str) -> FnArg {
    FnArg::Typed { pat: Pattern::Ident(name.to_string()), ty: ty.to_string() }
}

#[test]
fn arguments_are_bound_to_prefixed_names() {
    let inputs = vec![
        typed("env", "napi::Env"),
        typed("first", "napi::Number"),
        typed("second", "napi::Float64Array"),
    ];
    let planned = make_args(&inputs);
    assert_eq!(planned.count, 2);
    assert_eq!(planned.bindings.len(), 2);
    assert_eq!(planned.bindings[0].name, "fn_arg_first");
    assert_eq!(planned.bindings[0].ty, "napi::Number");
    assert_eq!(planned.bindings[0].index, 0);
    assert_eq!(planned.bindings[1].name, "fn_arg_second");
    assert_eq!(planned.bindings[1].ty, "napi::Float64Array");
    assert_eq!(planned.bindings[1].index, 1);
}

#[test]
fn a_function_of_the_environment_alone_takes_no_arguments() {
    let planned = make_args(&vec![typed("env", "napi::Env")]);
    assert_eq!(planned.count, 0);
    assert!(planned.bindings.is_empty());
}

#[test]
fn callback_plan_names_both_functions() {
    let sig = Signature {
        ident: "add".to_string(),
        inputs: vec![typed("env", "napi::Env"), typed("first", "napi::Number")],
    };
    assert!(sig.is_supported());
    let callback = make_callback("example_add".to_string(), sig);
    assert_eq!(callback.c_name, "example_add");
    assert_eq!(callback.rs_name, "add");
    assert_eq!(callback.arguments.count, 1);
    assert_eq!(callback.arguments.bindings[0].name, "fn_arg_first");
}

#[test]
fn unsupported_signatures_are_told_apart() {
    let empty = Signature { ident: "f".to_string(), inputs: vec![] };
    assert!(!empty.is_supported());
    let method = Signature {
        ident: "f".to_string(),
        inputs: vec![typed("env", "napi::Env"), FnArg::Receiver],
    };
    assert!(!method.is_supported());
    let tuple = Signature {
        ident: "f".to_string(),
        inputs: vec![
            typed("env", "napi::Env"),
            FnArg::Typed { pat: Pattern::Other, ty: "(u8, u8)".to_string() },
        ],
    };
    assert!(!tuple.is_supported());
    let first_is_free = Signature {
        ident: "f".to_string(),
        inputs: vec![FnArg::Receiver, typed("x", "napi::Any")],
    };
    assert!(first_is_free.is_supported());
    assert!(typed("x", "T").is_named());
    assert!(!FnArg::Receiver.is_named());
}
