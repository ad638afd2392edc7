use vstd::prelude::*;

use crate::env::Env;
use crate::host::{
    asked, asks, continues, lemma_asked_continues, lemma_continues_trans, Call, CallView, Coercion,
    ErrorClass, Exchange, Host, Predicate, Query, Reply, Session,
};
use crate::result::Error;

mod any;
mod array;
mod array_buffer;
mod boolean;
mod buffer;
mod null;
mod number;
mod object;
mod string;
mod typed_array;
mod undefined;

pub use self::any::{object_like, Any};
pub use self::array::Array;
pub use self::array_buffer::ArrayBuffer;
pub use self::boolean::Boolean;
pub use self::buffer::Buffer;
pub use self::null::Null;
pub use self::number::Number;
pub use self::object::{named, named_reply, Object};
pub use self::string::{
    content, fetch_failure, fetch_result, fetched, read_as_text, unusable, viewed, String,
};
pub(crate) use self::typed_array::check_layout;
pub use self::typed_array::{
    described, typed_checked, BigInt64Array, BigInt64ArrayElement, BigUInt64Array,
    BigUInt64ArrayElement, ElementKind, Layout, Float32Array, Float32ArrayElement, Float64Array,
    Float64ArrayElement, Int16Array, Int16ArrayElement, Int32Array, Int32ArrayElement, Int8Array,
    Int8ArrayElement, TypedArray, TypedArrayElement, UInt16Array, UInt16ArrayElement, UInt32Array,
    UInt32ArrayElement, UInt8Array, UInt8ArrayElement, UInt8ClampedArray, UInt8ClampedArrayElement,
};
pub use self::undefined::Undefined;

verus! {

/// The runtime type tags that the host gives its values.
#[derive(Debug, Clone, Copy, Eq, PartialEq, Structural)]
pub enum ValueType {
    Undefined,
    Null,
    Boolean,
    Number,
    String,
    Symbol,
    Object,
    Function,
    External,
    BigInt,
}

/// What an answer amounts to where the call asked for a plain value: the
/// value, or the error of the failing status.
pub open spec fn answered<T>(reply: Reply, value: T, result: Result<T, Error>) -> bool {
    result == if reply.status.succeeded() {
        Ok::<T, Error>(value)
    } else {
        Err::<T, Error>(Error::failure(reply.status))
    }
}

/// What an answer amounts to where the call asked for a value of the host:
/// a wrapper in `env` around the handle in the answer, or the error of the
/// failing status.
pub open spec fn wrapped<V: Value>(reply: Reply, env: Env, result: Result<V, Error>) -> bool {
    match result {
        Ok(wrapper) => reply.status.succeeded()
            && wrapper.raw() == reply.handle() && wrapper.context()
            == env,
        Err(error) => !reply.status.succeeded() && error == Error::failure(reply.status),
    }
}

/// A result without what it holds on success.
pub open spec fn unit<T>(result: Result<T, Error>) -> Result<(), Error> {
    match result {
        Ok(_) => Ok(()),
        Err(error) => Err(error),
    }
}

/// Where the making of a type error ends that starts at `at`: behind the
/// request for the message string if that failed, else behind the request for
/// the error.
pub open spec fn raised_end(trace: Seq<Exchange>, at: int) -> int {
    if trace[at].reply.status.succeeded() {
        at + 2
    } else {
        at + 1
    }
}

/// What comes of the making of a type error that starts at `at`: the error of
/// the failing status if the message string could not be made, else what came
/// of the request for the error.
pub open spec fn raised_error(trace: Seq<Exchange>, at: int) -> Error {
    if trace[at].reply.status.succeeded() {
        Error::thrown(trace[at + 1].reply)
    } else {
        Error::failure(trace[at].reply.status)
    }
}

/// The exchanges of `trace` from `at` to `end` are the making of a type error
/// with `message`, and `error` is what came of it: the host is asked for a
/// string with the message and then, with that string, for the type error.
/// A failing status ends the making at once and is the error.
pub open spec fn raised(
    trace: Seq<Exchange>,
    at: int,
    end: int,
    env: Env,
    message: Seq<char>,
    error: Error,
) -> bool {
    &&& asks(trace, at, env, CallView::CreateStringUtf8(message))
    &&& end <= trace.len()
    &&& end == raised_end(trace, at)
    &&& error == raised_error(trace, at)
    &&& trace[at].reply.status.succeeded() ==> asks(
        trace,
        at + 1,
        env,
        CallView::Ask(
            Query::CreateError { class: ErrorClass::TypeError, message: trace[at].reply.handle() },
        ),
    )
}

/// Where a validation ends that starts at `at` with a question whose answer
/// `passes` or not: behind the question, or behind the making of the type
/// error.
pub open spec fn judged_end(trace: Seq<Exchange>, at: int, passes: bool) -> int {
    if trace[at].reply.status.succeeded() && !passes {
        raised_end(trace, at + 1)
    } else {
        at + 1
    }
}

/// What comes of a validation that starts at `at` with a question whose
/// answer `passes` or not.
pub open spec fn judged_outcome(trace: Seq<Exchange>, at: int, passes: bool) -> Result<(), Error> {
    if !trace[at].reply.status.succeeded() {
        Err(Error::failure(trace[at].reply.status))
    } else if passes {
        Ok(())
    } else {
        Err(raised_error(trace, at + 1))
    }
}

/// The exchanges of `trace` from `at` to `end` are one validation: the host
/// is asked `question`; if it fails to answer, the failing status is the
/// error; if the answer `passes`, the validation succeeds with nothing more
/// asked; otherwise a type error with `message` is made and is the error.
pub open spec fn judged(
    trace: Seq<Exchange>,
    at: int,
    end: int,
    env: Env,
    question: Query,
    passes: bool,
    message: Seq<char>,
    outcome: Result<(), Error>,
) -> bool {
    &&& asks(trace, at, env, CallView::Ask(question))
    &&& end <= trace.len()
    &&& end == judged_end(trace, at, passes)
    &&& outcome == judged_outcome(trace, at, passes)
    &&& trace[at].reply.status.succeeded() && !passes ==> raised(
        trace,
        at + 1,
        end,
        env,
        message,
        raised_error(trace, at + 1),
    )
}

/// Where a validation in two steps ends that starts at `at`.
pub open spec fn judged_twice_end(
    trace: Seq<Exchange>,
    at: int,
    first_passes: bool,
    second_passes: bool,
) -> int {
    if trace[at].reply.status.succeeded() && first_passes {
        judged_end(trace, at + 1, second_passes)
    } else {
        judged_end(trace, at, first_passes)
    }
}

/// What comes of a validation in two steps that starts at `at`.
pub open spec fn judged_twice_outcome(
    trace: Seq<Exchange>,
    at: int,
    first_passes: bool,
    second_passes: bool,
) -> Result<(), Error> {
    if trace[at].reply.status.succeeded() && first_passes {
        judged_outcome(trace, at + 1, second_passes)
    } else {
        judged_outcome(trace, at, first_passes)
    }
}

/// The exchanges of `trace` from `at` to `end` are a validation in two
/// steps: the first question is judged as `judged` says; if its answer
/// passes, the second question is asked and judged in the same way.
pub open spec fn judged_twice(
    trace: Seq<Exchange>,
    at: int,
    end: int,
    env: Env,
    first: Query,
    first_passes: bool,
    first_message: Seq<char>,
    second: Query,
    second_passes: bool,
    second_message: Seq<char>,
    outcome: Result<(), Error>,
) -> bool {
    if trace[at].reply.status.succeeded() && first_passes {
        &&& asks(trace, at, env, CallView::Ask(first))
        &&& judged(trace, at + 1, end, env, second, second_passes, second_message, outcome)
    } else {
        judged(trace, at, end, env, first, first_passes, first_message, outcome)
    }
}

/// Makes the type error with which a value is refused. `before` is the
/// record at some earlier point, which the record still continues.
pub(crate) fn refuse<H: Host>(
    host: &mut Session<H>,
    env: Env,
    message: &str,
    Ghost(before): Ghost<Seq<Exchange>>,
) -> (error: Error)
    requires
        continues(before, old(host).trace()),
    ensures
        continues(before, final(host).trace()),
        continues(old(host).trace(), final(host).trace()),
        raised(
            final(host).trace(),
            old(host).trace().len() as int,
            final(host).trace().len() as int,
            env,
            message@,
            error,
        ),
{
    let ghost start = host.trace();
    let made = self::string::create(host, env, message);
    let ghost middle = host.trace();
    proof {
        lemma_asked_continues(start, middle, env, CallView::CreateStringUtf8(message@));
        lemma_continues_trans(before, start, middle);
    }
    match made {
        Err(error) => error,
        Ok(text) => {
            let error = Error::create(host, env, ErrorClass::TypeError, text);
            proof {
                lemma_asked_continues(
                    middle,
                    host.trace(),
                    env,
                    CallView::Ask(
                        Query::CreateError { class: ErrorClass::TypeError, message: text },
                    ),
                );
                lemma_continues_trans(start, middle, host.trace());
                lemma_continues_trans(before, middle, host.trace());
            }
            error
        },
    }
}

/// Asks the host for the type tag of `value` and refuses the value with
/// `message` unless the tag is `expected`.
pub(crate) fn expect_tag<H: Host>(
    host: &mut Session<H>,
    env: Env,
    value: usize,
    expected: ValueType,
    message: &str,
) -> (result: Result<(), Error>)
    ensures
        continues(old(host).trace(), final(host).trace()),
        judged(
            final(host).trace(),
            old(host).trace().len() as int,
            final(host).trace().len() as int,
            env,
            Query::TypeOf { value },
            final(host).trace()[old(host).trace().len() as int].reply.tag() == expected,
            message@,
            result,
        ),
{
    let ghost before = host.trace();
    let tag = Any::with_value(env, value).value_type(host);
    proof {
        lemma_asked_continues(before, host.trace(), env, CallView::Ask(Query::TypeOf { value }));
    }
    if tag? != expected {
        return Err(refuse(host, env, message, Ghost(before)));
    }
    Ok(())
}

/// Asks the host whether `value` is a `predicate` and refuses the value with
/// `message` unless it is.
pub(crate) fn expect<H: Host>(
    host: &mut Session<H>,
    env: Env,
    value: usize,
    predicate: Predicate,
    message: &str,
) -> (result: Result<(), Error>)
    ensures
        continues(old(host).trace(), final(host).trace()),
        judged(
            final(host).trace(),
            old(host).trace().len() as int,
            final(host).trace().len() as int,
            env,
            Query::Test { predicate, value },
            final(host).trace()[old(host).trace().len() as int].reply.flag(),
            message@,
            result,
        ),
{
    let ghost before = host.trace();
    let flag = check_type(&Any::with_value(env, value), host, predicate);
    proof {
        lemma_asked_continues(
            before,
            host.trace(),
            env,
            CallView::Ask(Query::Test { predicate, value }),
        );
    }
    if !flag? {
        return Err(refuse(host, env, message, Ghost(before)));
    }
    Ok(())
}

/// What every wrapper of a host value offers: its handle, the context it
/// belongs to, and a constructor that validates a handle of unknown origin.
pub trait Value: Sized {
    /// The host's handle of the value.
    spec fn raw(&self) -> usize;

    /// The context that the value belongs to.
    spec fn context(&self) -> Env;

    fn as_sys_value(&self) -> (raw: usize)
        ensures
            raw == self.raw(),
    ;

    fn env(&self) -> (env: Env)
        ensures
            env == self.context(),
    ;

    /// Wraps `value` if the host confirms that it is what `Self` stands for.
    /// The host is asked nothing that was not needed to decide, and what was
    /// asked before stays on record.
    fn from_sys_checked<H: Host>(
        host: &mut Session<H>,
        env: Env,
        value: usize,
    ) -> (result: Result<Self, Error>)
        ensures
            continues(old(host).trace(), final(host).trace()),
            result matches Ok(checked) ==> checked.raw() == value && checked.context() == env,
    ;

    /// The value's runtime type tag, as the host reports it.
    fn value_type<H: Host>(&self, host: &mut Session<H>) -> (result: Result<ValueType, Error>)
        ensures
            asked(
                old(host).trace(),
                final(host).trace(),
                self.context(),
                CallView::Ask(Query::TypeOf { value: self.raw() }),
            ),
            answered(final(host).answer(), final(host).answer().tag(), result),
    {
        let env = self.env();
        let reply = host.call(env, Call::Ask(Query::TypeOf { value: self.as_sys_value() }));
        env.handle_status(reply.status)?;
        Ok(reply.tag())
    }
}

/// What every wrapper offers besides: the host's coercions, comparisons and
/// questions about what the value is.
pub trait Inspect: Value {
    fn to_napi_boolean<H: Host>(&self, host: &mut Session<H>) -> (result: Result<Boolean, Error>)
        ensures
            asked(
                old(host).trace(),
                final(host).trace(),
                self.context(),
                CallView::Ask(Query::Coerce { target: Coercion::Boolean, value: self.raw() }),
            ),
            wrapped(final(host).answer(), self.context(), result),
    {
        coerce(self, host, Coercion::Boolean)
    }

    fn to_napi_number<H: Host>(&self, host: &mut Session<H>) -> (result: Result<Number, Error>)
        ensures
            asked(
                old(host).trace(),
                final(host).trace(),
                self.context(),
                CallView::Ask(Query::Coerce { target: Coercion::Number, value: self.raw() }),
            ),
            wrapped(final(host).answer(), self.context(), result),
    {
        coerce(self, host, Coercion::Number)
    }

    fn to_napi_object<H: Host>(&self, host: &mut Session<H>) -> (result: Result<Object, Error>)
        ensures
            asked(
                old(host).trace(),
                final(host).trace(),
                self.context(),
                CallView::Ask(Query::Coerce { target: Coercion::Object, value: self.raw() }),
            ),
            wrapped(final(host).answer(), self.context(), result),
    {
        coerce(self, host, Coercion::Object)
    }

    fn to_napi_string<H: Host>(&self, host: &mut Session<H>) -> (result: Result<String, Error>)
        ensures
            asked(
                old(host).trace(),
                final(host).trace(),
                self.context(),
                CallView::Ask(Query::Coerce { target: Coercion::String, value: self.raw() }),
            ),
            wrapped(final(host).answer(), self.context(), result),
    {
        coerce(self, host, Coercion::String)
    }

    /// The same handle with nothing claimed of its type.
    fn as_napi_any(&self) -> (any: Any)
        ensures
            any.raw() == self.raw(),
            any.context() == self.context(),
    {
        Any::with_value(self.env(), self.as_sys_value())
    }

    fn instanceof<H: Host>(
        &self,
        host: &mut Session<H>,
        constructor: &Object,
    ) -> (result: Result<bool, Error>)
        ensures
            asked(
                old(host).trace(),
                final(host).trace(),
                self.context(),
                CallView::Ask(
                    Query::InstanceOf { value: self.raw(), constructor: constructor.raw() },
                ),
            ),
            answered(final(host).answer(), final(host).answer().flag(), result),
    {
        let env = self.env();
        let reply = host.call(
            env,
            Call::Ask(
                Query::InstanceOf {
                    value: self.as_sys_value(),
                    constructor: constructor.as_sys_value(),
                },
            ),
        );
        env.handle_status(reply.status)?;
        Ok(reply.flag())
    }

    fn is_array<H: Host>(&self, host: &mut Session<H>) -> (result: Result<bool, Error>)
        ensures
            tested(
                old(host).trace(),
                final(host).trace(),
                self.context(),
                self.raw(),
                Predicate::Array,
                result,
            ),
    {
        check_type(self, host, Predicate::Array)
    }

    fn is_arraybuffer<H: Host>(&self, host: &mut Session<H>) -> (result: Result<bool, Error>)
        ensures
            tested(
                old(host).trace(),
                final(host).trace(),
                self.context(),
                self.raw(),
                Predicate::ArrayBuffer,
                result,
            ),
    {
        check_type(self, host, Predicate::ArrayBuffer)
    }

    fn is_buffer<H: Host>(&self, host: &mut Session<H>) -> (result: Result<bool, Error>)
        ensures
            tested(
                old(host).trace(),
                final(host).trace(),
                self.context(),
                self.raw(),
                Predicate::Buffer,
                result,
            ),
    {
        check_type(self, host, Predicate::Buffer)
    }

    fn is_error<H: Host>(&self, host: &mut Session<H>) -> (result: Result<bool, Error>)
        ensures
            tested(
                old(host).trace(),
                final(host).trace(),
                self.context(),
                self.raw(),
                Predicate::Error,
                result,
            ),
    {
        check_type(self, host, Predicate::Error)
    }

    fn is_typedarray<H: Host>(&self, host: &mut Session<H>) -> (result: Result<bool, Error>)
        ensures
            tested(
                old(host).trace(),
                final(host).trace(),
                self.context(),
                self.raw(),
                Predicate::TypedArray,
                result,
            ),
    {
        check_type(self, host, Predicate::TypedArray)
    }

    fn is_dataview<H: Host>(&self, host: &mut Session<H>) -> (result: Result<bool, Error>)
        ensures
            tested(
                old(host).trace(),
                final(host).trace(),
                self.context(),
                self.raw(),
                Predicate::DataView,
                result,
            ),
    {
        check_type(self, host, Predicate::DataView)
    }

    fn strict_equals<H: Host, T: Value>(
        &self,
        host: &mut Session<H>,
        other: &T,
    ) -> (result: Result<bool, Error>)
        ensures
            asked(
                old(host).trace(),
                final(host).trace(),
                self.context(),
                CallView::Ask(Query::StrictEquals { left: self.raw(), right: other.raw() }),
            ),
            answered(final(host).answer(), final(host).answer().flag(), result),
    {
        let env = self.env();
        let reply = host.call(
            env,
            Call::Ask(
                Query::StrictEquals { left: self.as_sys_value(), right: other.as_sys_value() },
            ),
        );
        env.handle_status(reply.status)?;
        Ok(reply.flag())
    }
}

impl<V: Value> Inspect for V {
}

/// `after` is `before` and the one question whether `value` is a
/// `predicate`, and `result` is the host's answer to it.
pub open spec fn tested(
    before: Seq<Exchange>,
    after: Seq<Exchange>,
    env: Env,
    value: usize,
    predicate: Predicate,
    result: Result<bool, Error>,
) -> bool {
    &&& asked(before, after, env, CallView::Ask(Query::Test { predicate, value }))
    &&& answered(after.last().reply, after.last().reply.flag(), result)
}

/// The wrappers whose values can be used as objects of the host.
pub trait AsObject: Value {
    fn as_napi_object(&self) -> (object: Object)
        ensures
            object.raw() == self.raw(),
            object.context() == self.context(),
    {
        Object::construct(self.env(), self.as_sys_value())
    }
}

/// The wrappers that the crate makes around handles which it has just
/// received from the host as values of the right type.
pub(crate) trait ValueInternal: Value {
    fn construct(env: Env, value: usize) -> (wrapper: Self)
        ensures
            wrapper.raw() == value,
            wrapper.context() == env,
    ;
}

pub(crate) fn coerce<H: Host, T: Value, U: ValueInternal>(
    value: &T,
    host: &mut Session<H>,
    target: Coercion,
) -> (result: Result<U, Error>)
    ensures
        asked(
            old(host).trace(),
            final(host).trace(),
            value.context(),
            CallView::Ask(Query::Coerce { target, value: value.raw() }),
        ),
        wrapped(final(host).answer(), value.context(), result),
{
    let env = value.env();
    let reply = host.call(env, Call::Ask(Query::Coerce { target, value: value.as_sys_value() }));
    env.handle_status(reply.status)?;
    Ok(U::construct(env, reply.handle()))
}

pub(crate) fn check_type<H: Host, T: Value>(
    value: &T,
    host: &mut Session<H>,
    predicate: Predicate,
) -> (result: Result<bool, Error>)
    ensures
        tested(
            old(host).trace(),
            final(host).trace(),
            value.context(),
            value.raw(),
            predicate,
            result,
        ),
{
    let env = value.env();
    let reply = host.call(env, Call::Ask(Query::Test { predicate, value: value.as_sys_value() }));
    env.handle_status(reply.status)?;
    Ok(reply.flag())
}

} // verus!
