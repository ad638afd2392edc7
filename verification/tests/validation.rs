use napi::{
    Any, Array, ArrayBuffer, Boolean, Buffer, Call, ElementKind, Env, ErrorClass, ErrorKind,
    Float64Array, Int32Array, Null, Number, Object, Payload, Predicate, Query, Reply, Script,
    Session, Status, TypedArray, TypedArrayElement, UInt8ClampedArray, UInt8ClampedArrayElement,
    Undefined, Value, ValueType, Variant,
};

fn ok(payload: Payload) -> Reply {
    Reply { status: Status::Success, payload }
}

fn failed(status: Status) -> Reply {
    Reply { status, payload: Payload::Nothing }
}

fn session(replies: Vec<Reply>) -> Session<Script> {
    Session::new(Script::new(replies))
}

fn env() -> Env {
    Env::from(0x1000usize)
}

fn tags() -> Vec<ValueType> {
    vec![
        ValueType::Undefined,
        ValueType::Null,
        ValueType::Boolean,
        ValueType::Number,
        ValueType::String,
        ValueType::Symbol,
        ValueType::Object,
        ValueType::Function,
        ValueType::External,
        ValueType::BigInt,
    ]
}

fn refusal(message: &str) -> Vec<Call> {
    vec![
        Call::CreateStringUtf8(message.to_string()),
        Call::Ask(Query::CreateError { class: ErrorClass::TypeError, message: 90 }),
    ]
}

#[test]
fn tagged_variants_accept_their_own_tag_only() {
    let variants = [
        (Variant::Undefined, ValueType::Undefined, "Undefined expected"),
        (Variant::Boolean, ValueType::Boolean, "Boolean expected"),
        (Variant::Number, ValueType::Number, "Number expected"),
        (Variant::String, ValueType::String, "String expected"),
        (Variant::Object, ValueType::Object, "Object expected"),
    ];
    for (variant, own, message) in variants {
        for tag in tags() {
            let mut host = session(vec![
                ok(Payload::Tag(tag)),
                ok(Payload::Handle(90)),
                ok(Payload::Handle(91)),
            ]);
            let result = variant.check(&mut host, env(), 12);
            let calls = host.host().calls();
            assert_eq!(calls[0], Call::Ask(Query::TypeOf { value: 12 }));
            assert_eq!(result.is_ok(), tag == own);
            match result {
                Ok(argument) => {
                    assert_eq!(argument.expected(), variant);
                    assert_eq!(argument.as_sys_value(), 12);
                    assert_eq!(calls.len(), 1);
                }
                Err(error) => {
                    assert_eq!(error.kind, ErrorKind::ApplicationError);
                    assert_eq!(error.exception, Some(91));
                    assert_eq!(calls[1..], refusal(message));
                }
            }
        }
    }
}

#[test]
fn typed_wrappers_validate_as_their_variant_does() {
    let mut host = session(vec![ok(Payload::Tag(ValueType::Number))]);
    assert_eq!(Number::from_sys_checked(&mut host, env(), 4).unwrap().as_sys_value(), 4);
    let mut host = session(vec![ok(Payload::Tag(ValueType::Boolean))]);
    assert_eq!(Boolean::from_sys_checked(&mut host, env(), 4).unwrap().env(), env());
    let mut host = session(vec![ok(Payload::Tag(ValueType::Undefined))]);
    assert!(Undefined::from_sys_checked(&mut host, env(), 4).is_ok());
    let mut host = session(vec![ok(Payload::Tag(ValueType::Object))]);
    assert!(Object::from_sys_checked(&mut host, env(), 4).is_ok());
    let mut host = session(vec![ok(Payload::Tag(ValueType::String))]);
    assert!(napi::String::from_sys_checked(&mut host, env(), 4).is_ok());
    let mut host = session(vec![
        ok(Payload::Tag(ValueType::String)),
        ok(Payload::Handle(90)),
        ok(Payload::Handle(91)),
    ]);
    let error = Number::from_sys_checked(&mut host, env(), 4).unwrap_err();
    assert_eq!(error.exception, Some(91));
    assert_eq!(host.host().calls()[1..], refusal("Number expected"));
}

#[test]
fn any_accepts_every_handle_without_asking() {
    let mut host = session(vec![]);
    let any = Any::from_sys_checked(&mut host, env(), 33).unwrap();
    assert_eq!(any.as_sys_value(), 33);
    let argument = Variant::Any.check(&mut host, env(), 34).unwrap();
    assert_eq!(argument.to_any().unwrap().as_sys_value(), 34);
    assert!(host.host().calls().is_empty());
}

#[test]
fn validation_reports_a_failing_status_without_a_type_error() {
    let mut host = session(vec![failed(Status::InvalidArg)]);
    let error = Number::from_sys_checked(&mut host, env(), 4).unwrap_err();
    assert_eq!(error.kind, ErrorKind::InvalidArg);
    assert_eq!(error.exception, None);
    assert_eq!(host.host().calls().len(), 1);
}

#[test]
fn refusal_reports_what_the_host_could_not_make() {
    let mut host = session(vec![ok(Payload::Tag(ValueType::Null)), failed(Status::GenericFailure)]);
    let error = Number::from_sys_checked(&mut host, env(), 4).unwrap_err();
    assert_eq!(error.kind, ErrorKind::GenericFailure);
    assert_eq!(host.host().calls().len(), 2);
    let mut host = session(vec![
        ok(Payload::Tag(ValueType::Null)),
        ok(Payload::Handle(90)),
        failed(Status::PendingException),
    ]);
    let error = Number::from_sys_checked(&mut host, env(), 4).unwrap_err();
    assert_eq!(error.kind, ErrorKind::PendingException);
    assert_eq!(error.exception, None);
    assert_eq!(host.host().calls().len(), 3);
}

#[test]
fn array_goes_by_the_predicate_not_by_the_tag() {
    let mut host = session(vec![ok(Payload::Flag(true))]);
    let array = Array::from_sys_checked(&mut host, env(), 12).unwrap();
    assert_eq!(array.as_sys_value(), 12);
    assert_eq!(
        host.host().calls(),
        &vec![Call::Ask(Query::Test { predicate: Predicate::Array, value: 12 })]
    );
    let mut host =
        session(vec![ok(Payload::Flag(false)), ok(Payload::Handle(90)), ok(Payload::Handle(91))]);
    let error = Array::from_sys_checked(&mut host, env(), 12).unwrap_err();
    assert_eq!(error.exception, Some(91));
    assert_eq!(host.host().calls()[1..], refusal("Array expected"));
    let mut host = session(vec![ok(Payload::Tag(ValueType::Object))]);
    assert!(Variant::Array.check(&mut host, env(), 12).is_err());
}

#[test]
fn null_is_compared_with_the_hosts_null() {
    let mut host = session(vec![ok(Payload::Handle(2)), ok(Payload::Flag(true))]);
    let null = Null::from_sys_checked(&mut host, env(), 12).unwrap();
    assert_eq!(null.as_sys_value(), 12);
    assert_eq!(
        host.host().calls(),
        &vec![
            Call::Ask(Query::GetNull),
            Call::Ask(Query::StrictEquals { left: 12, right: 2 }),
        ]
    );
    let mut host = session(vec![
        ok(Payload::Handle(2)),
        ok(Payload::Flag(false)),
        ok(Payload::Handle(90)),
        ok(Payload::Handle(91)),
    ]);
    let error = Null::from_sys_checked(&mut host, env(), 12).unwrap_err();
    assert_eq!(error.exception, Some(91));
    assert_eq!(host.host().calls()[2..], refusal("Null expected"));
    let mut host = session(vec![failed(Status::GenericFailure)]);
    assert_eq!(
        Null::from_sys_checked(&mut host, env(), 12).unwrap_err().kind,
        ErrorKind::GenericFailure
    );
    assert_eq!(host.host().calls().len(), 1);
}

#[test]
fn buffers_are_asked_for_their_bytes_once_accepted() {
    let mut host =
        session(vec![ok(Payload::Flag(true)), ok(Payload::Extent { data: 0x4000, len: 32 })]);
    let buffer = ArrayBuffer::from_sys_checked(&mut host, env(), 12).unwrap();
    assert_eq!(buffer.as_sys_value(), 12);
    assert_eq!(buffer.as_ptr(), 0x4000);
    assert_eq!(buffer.len(), 32);
    assert_eq!(
        host.host().calls(),
        &vec![
            Call::Ask(Query::Test { predicate: Predicate::ArrayBuffer, value: 12 }),
            Call::Ask(Query::GetArrayBufferInfo { value: 12 }),
        ]
    );
    let mut host =
        session(vec![ok(Payload::Flag(true)), ok(Payload::Extent { data: 0x5000, len: 0 })]);
    let buffer = Buffer::from_sys_checked(&mut host, env(), 13).unwrap();
    assert!(buffer.is_empty());
    assert_eq!(
        host.host().calls(),
        &vec![
            Call::Ask(Query::Test { predicate: Predicate::Buffer, value: 13 }),
            Call::Ask(Query::GetBufferInfo { value: 13 }),
        ]
    );
    let mut host =
        session(vec![ok(Payload::Flag(false)), ok(Payload::Handle(90)), ok(Payload::Handle(91))]);
    assert!(ArrayBuffer::from_sys_checked(&mut host, env(), 12).is_err());
    assert_eq!(host.host().calls()[1..], refusal("ArrayBuffer expected"));
    let mut host =
        session(vec![ok(Payload::Flag(false)), ok(Payload::Handle(90)), ok(Payload::Handle(91))]);
    assert!(Buffer::from_sys_checked(&mut host, env(), 12).is_err());
    assert_eq!(host.host().calls()[1..], refusal("Buffer expected"));
    let mut host = session(vec![ok(Payload::Flag(true)), failed(Status::InvalidArg)]);
    assert_eq!(
        Buffer::from_sys_checked(&mut host, env(), 12).unwrap_err().kind,
        ErrorKind::InvalidArg
    );
}

#[test]
fn typed_array_of_the_expected_kind_is_accepted() {
    let view = Payload::View {
        kind: ElementKind::Float64,
        len: 3,
        data: 0x7000,
        buffer: 44,
        offset: 8,
    };
    let mut host = session(vec![ok(Payload::Flag(true)), ok(view)]);
    let array = Float64Array::from_sys_checked(&mut host, env(), 12).unwrap();
    assert_eq!(array.as_sys_value(), 12);
    assert_eq!(array.array_type(), ElementKind::Float64);
    assert_eq!(array.len(), 3);
    assert!(!array.is_empty());
    assert_eq!(array.as_ptr(), 0x7000);
    assert_eq!(array.array_buffer(), 44);
    assert_eq!(array.byte_offset(), 8);
    assert_eq!(
        host.host().calls(),
        &vec![
            Call::Ask(Query::Test { predicate: Predicate::TypedArray, value: 12 }),
            Call::Ask(Query::GetTypedArrayInfo { value: 12 }),
        ]
    );
}

#[test]
fn int32_array_is_no_float64_array() {
    let view =
        Payload::View { kind: ElementKind::Int32, len: 3, data: 0x7000, buffer: 44, offset: 0 };
    let mut host = session(vec![
        ok(Payload::Flag(true)),
        ok(view),
        ok(Payload::Handle(90)),
        ok(Payload::Handle(91)),
    ]);
    let error = Float64Array::from_sys_checked(&mut host, env(), 12).unwrap_err();
    assert_eq!(error.kind, ErrorKind::ApplicationError);
    assert_eq!(error.exception, Some(91));
    assert_eq!(host.host().calls()[2..], refusal("Float64Array expected"));
}

#[test]
fn what_is_no_typed_array_is_refused_before_its_kind_is_asked() {
    let mut host =
        session(vec![ok(Payload::Flag(false)), ok(Payload::Handle(90)), ok(Payload::Handle(91))]);
    let error = Int32Array::from_sys_checked(&mut host, env(), 12).unwrap_err();
    assert_eq!(error.exception, Some(91));
    assert_eq!(host.host().calls()[1..], refusal("TypedArray expected"));
}

#[test]
fn every_element_kind_has_its_array_name() {
    let names = [
        (ElementKind::Int8, "Int8Array"),
        (ElementKind::UInt8, "UInt8Array"),
        (ElementKind::UInt8Clamped, "UInt8ClampedArray"),
        (ElementKind::Int16, "Int16Array"),
        (ElementKind::UInt16, "UInt16Array"),
        (ElementKind::Int32, "Int32Array"),
        (ElementKind::UInt32, "UInt32Array"),
        (ElementKind::Float32, "Float32Array"),
        (ElementKind::Float64, "Float64Array"),
        (ElementKind::BigInt64, "BigInt64Array"),
        (ElementKind::BigUInt64, "BigUInt64Array"),
    ];
    for (kind, name) in names {
        assert_eq!(kind.name(), name);
        for (other, _) in names {
            let view = Payload::View { kind: other, len: 1, data: 1, buffer: 1, offset: 0 };
            let mut host = session(vec![
                ok(Payload::Flag(true)),
                ok(view),
                ok(Payload::Handle(90)),
                ok(Payload::Handle(91)),
            ]);
            let result = Variant::TypedArray(kind).check(&mut host, env(), 12);
            assert_eq!(result.is_ok(), kind == other);
            if kind != other {
                assert_eq!(host.host().calls()[2..], refusal(&format!("{} expected", name)));
            }
        }
    }
    assert_eq!(UInt8ClampedArrayElement::array_type(), ElementKind::UInt8Clamped);
    assert_eq!(UInt8ClampedArrayElement::array_type_name(), "UInt8ClampedArray");
}

#[test]
fn typed_array_over_a_buffer() {
    let mut host = session(vec![
        ok(Payload::Allocation { value: 5, data: 0x9000 }),
        ok(Payload::Handle(6)),
        ok(Payload::Allocation { value: 7, data: 0xa000 }),
        failed(Status::InvalidArg),
    ]);
    let buffer = ArrayBuffer::new(&mut host, env(), 64).unwrap();
    let array: UInt8ClampedArray = TypedArray::from_array_buffer(&mut host, buffer, 16, 8).unwrap();
    assert_eq!(array.as_sys_value(), 6);
    assert_eq!(array.len(), 8);
    assert_eq!(array.as_ptr(), 0x9010);
    assert_eq!(array.array_buffer(), 5);
    assert_eq!(array.byte_offset(), 16);
    assert_eq!(
        host.host().calls()[1],
        Call::Ask(Query::CreateTypedArray {
            kind: ElementKind::UInt8Clamped,
            count: 8,
            buffer: 5,
            offset: 16,
        })
    );
    let buffer = ArrayBuffer::new(&mut host, env(), 4).unwrap();
    let error = Float64Array::from_array_buffer(&mut host, buffer, 0, 100).unwrap_err();
    assert_eq!(error.kind, ErrorKind::InvalidArg);
}

#[test]
fn typed_array_starts_at_the_byte_offset() {
    let mut host =
        session(vec![ok(Payload::Allocation { value: 5, data: 0x9000 }), ok(Payload::Handle(6))]);
    let buffer = ArrayBuffer::new(&mut host, env(), 16).unwrap();
    let array: napi::UInt8Array = TypedArray::from_array_buffer(&mut host, buffer, 4, 8).unwrap();
    assert_eq!(array.as_ptr(), 0x9004);
    assert_eq!(array.len(), 8);
    assert_eq!(array.byte_offset(), 4);
    let mut host =
        session(vec![ok(Payload::Allocation { value: 5, data: 0x9000 }), ok(Payload::Handle(6))]);
    let buffer = ArrayBuffer::new(&mut host, env(), 16).unwrap();
    let array: napi::UInt8Array = TypedArray::from_array_buffer(&mut host, buffer, 0, 16).unwrap();
    assert_eq!(array.as_ptr(), 0x9000);
}

#[test]
fn typed_array_past_the_last_address_is_refused_unasked() {
    let data = usize::MAX - 3;
    let mut host =
        session(vec![ok(Payload::Allocation { value: 5, data }), ok(Payload::Handle(6))]);
    let buffer = ArrayBuffer::new(&mut host, env(), 4).unwrap();
    let error = Int32Array::from_array_buffer(&mut host, buffer, 4, 1).unwrap_err();
    assert_eq!(error.kind, ErrorKind::GenericFailure);
    assert_eq!(error.message, None);
    assert_eq!(error.exception, None);
    assert_eq!(host.host().calls().len(), 1);
    assert_eq!(host.host().remaining(), 1);

    let data = usize::MAX - 4;
    let mut host =
        session(vec![ok(Payload::Allocation { value: 5, data }), ok(Payload::Handle(6))]);
    let buffer = ArrayBuffer::new(&mut host, env(), 4).unwrap();
    let array = Int32Array::from_array_buffer(&mut host, buffer, 4, 0).unwrap();
    assert_eq!(array.as_ptr(), usize::MAX);
    assert_eq!(host.host().calls().len(), 2);
}

#[test]
fn casts_of_any() {
    let mut host = session(vec![
        ok(Payload::Tag(ValueType::Undefined)),
        ok(Payload::Tag(ValueType::Null)),
        ok(Payload::Tag(ValueType::Boolean)),
        ok(Payload::Tag(ValueType::Number)),
        ok(Payload::Tag(ValueType::String)),
        ok(Payload::Flag(true)),
    ]);
    let any = Any::with_value(env(), 12);
    assert_eq!(any.as_undefined(&mut host).unwrap().as_sys_value(), 12);
    assert_eq!(any.as_null(&mut host).unwrap().as_sys_value(), 12);
    assert_eq!(any.as_boolean(&mut host).unwrap().as_sys_value(), 12);
    assert_eq!(any.as_number(&mut host).unwrap().as_sys_value(), 12);
    assert_eq!(any.as_string(&mut host).unwrap().as_sys_value(), 12);
    assert_eq!(any.as_array(&mut host).unwrap().as_sys_value(), 12);
    assert_eq!(host.host().calls().len(), 6);
    assert_eq!(
        host.host().calls()[5],
        Call::Ask(Query::Test { predicate: Predicate::Array, value: 12 })
    );
}

#[test]
fn casts_of_any_refuse_in_lower_case() {
    let refused = |tag: ValueType| {
        session(vec![ok(Payload::Tag(tag)), ok(Payload::Handle(90)), ok(Payload::Handle(91))])
    };
    let any = Any::with_value(env(), 12);
    let mut host = refused(ValueType::Null);
    assert_eq!(any.as_undefined(&mut host).unwrap_err().exception, Some(91));
    assert_eq!(host.host().calls()[1..], refusal("undefined expected"));
    let mut host = refused(ValueType::Undefined);
    assert!(any.as_null(&mut host).is_err());
    assert_eq!(host.host().calls()[1..], refusal("null expected"));
    let mut host = refused(ValueType::Number);
    assert!(any.as_boolean(&mut host).is_err());
    assert_eq!(host.host().calls()[1..], refusal("boolean expected"));
    let mut host = refused(ValueType::Boolean);
    assert!(any.as_number(&mut host).is_err());
    assert_eq!(host.host().calls()[1..], refusal("number expected"));
    let mut host = refused(ValueType::Object);
    assert!(any.as_string(&mut host).is_err());
    assert_eq!(host.host().calls()[1..], refusal("string expected"));
    let mut host =
        session(vec![ok(Payload::Flag(false)), ok(Payload::Handle(90)), ok(Payload::Handle(91))]);
    assert!(any.as_array(&mut host).is_err());
    assert_eq!(host.host().calls()[1..], refusal("array expected"));
}

#[test]
fn objects_strings_and_functions_are_object_like() {
    let any = Any::with_value(env(), 12);
    for tag in tags() {
        let mut host =
            session(vec![ok(Payload::Tag(tag)), ok(Payload::Handle(90)), ok(Payload::Handle(91))]);
        let result = any.as_object(&mut host);
        let fits =
            tag == ValueType::Object || tag == ValueType::String || tag == ValueType::Function;
        assert_eq!(result.is_ok(), fits);
        if !fits {
            assert_eq!(host.host().calls()[1..], refusal("object expected"));
        }
    }
}

#[test]
fn arguments_turn_into_the_wrapper_of_their_variant_only() {
    let mut host = session(vec![ok(Payload::Tag(ValueType::Number))]);
    let argument = Variant::Number.check(&mut host, env(), 12).unwrap();
    assert_eq!(argument.to_number().unwrap().as_sys_value(), 12);
    assert_eq!(argument.to_number().unwrap().env(), env());
    assert!(argument.to_string().is_none());
    assert!(argument.to_any().is_none());
    assert!(argument.to_undefined().is_none());
    assert!(argument.to_null().is_none());
    assert!(argument.to_boolean().is_none());
    assert!(argument.to_object().is_none());
    assert!(argument.to_array().is_none());
    assert!(argument.to_array_buffer().is_none());
    assert!(argument.to_buffer().is_none());
    assert!(argument.to_typed_array::<napi::Float64ArrayElement>().is_none());

    let view =
        Payload::View { kind: ElementKind::Float64, len: 3, data: 0x7000, buffer: 44, offset: 8 };
    let mut host = session(vec![ok(Payload::Flag(true)), ok(view)]);
    let argument = Variant::TypedArray(ElementKind::Float64).check(&mut host, env(), 12).unwrap();
    let array = argument.to_typed_array::<napi::Float64ArrayElement>().unwrap();
    assert_eq!(array.len(), 3);
    assert_eq!(array.as_ptr(), 0x7000);
    assert!(argument.to_typed_array::<napi::Int32ArrayElement>().is_none());

    let mut host =
        session(vec![ok(Payload::Flag(true)), ok(Payload::Extent { data: 0x4000, len: 32 })]);
    let argument = Variant::ArrayBuffer.check(&mut host, env(), 12).unwrap();
    let buffer = argument.to_array_buffer().unwrap();
    assert_eq!(buffer.as_ptr(), 0x4000);
    assert_eq!(buffer.len(), 32);
    assert!(argument.to_buffer().is_none());
}
