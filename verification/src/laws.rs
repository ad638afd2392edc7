use vstd::prelude::*;

use crate::env::Env;
use crate::host::{
    asked, asks, CallView, Encoding, ErrorClass, Exchange, Payload, Query, Reply,
};
use crate::status::Status;
use crate::result::Error;
use crate::trampoline::{
    accepted, arity_message, entered, lemma_accepted_stops, start, threw, verdict,
};
use crate::variant::{validated, Argument, Variant};
use crate::value::{
    answered, fetch_result, fetched, raised_end, raised_error, read_as_text, typed_checked,
    wrapped, ElementKind, Number, Value,
};
use vstd::utf8::*;

verus! {

impl Variant {
    /// The host answered every question that the validation of a value as
    /// this variant asks, starting at `at`, and every answer is the one that
    /// a value of this variant gets: its type tag, or `true` from the
    /// predicate that tells the variant, and for a typed array its element
    /// kind.
    pub open spec fn confirmed(self, trace: Seq<Exchange>, at: int) -> bool {
        ||| self.questions() == 0
        ||| {
            &&& trace[at].reply.status.succeeded()
            &&& self.first_passes(trace[at].reply)
            &&& self.questions() == 2 ==> {
                &&& trace[at + 1].reply.status.succeeded()
                &&& self.second_passes(trace[at + 1].reply)
            }
        }
    }
}

/// A handle is accepted as a variant if and only if the host confirms it:
/// for every variant and every answer of the host, validation succeeds
/// exactly when the answers are those of a value of that variant.
pub proof fn lemma_validation_total(
    variant: Variant,
    trace: Seq<Exchange>,
    at: int,
    end: int,
    env: Env,
    value: usize,
    outcome: Result<(), Error>,
)
    requires
        validated(variant, trace, at, end, env, value, outcome),
    ensures
        outcome is Ok <==> variant.confirmed(trace, at),
{
    reveal(validated);
}

/// For the variants that are told by their type tag, a handle that the host
/// tags is accepted if and only if the tag is the variant's own. An array
/// is not among them: it is told by the host's predicate, and a handle of
/// which the host answers is accepted if and only if the predicate holds.
pub proof fn lemma_validation_by_tag(
    variant: Variant,
    trace: Seq<Exchange>,
    at: int,
    end: int,
    env: Env,
    value: usize,
    outcome: Result<(), Error>,
)
    requires
        validated(variant, trace, at, end, env, value, outcome),
        trace[at].reply.status.succeeded(),
        variant.questions() == 1,
    ensures
        variant.tag() matches Some(tag) ==> (outcome is Ok <==> trace[at].reply.tag() == tag),
        variant == Variant::Array ==> (outcome is Ok <==> trace[at].reply.flag()),
        variant == Variant::Array ==> asks(
            trace,
            at,
            env,
            CallView::Ask(Query::Test { predicate: crate::host::Predicate::Array, value }),
        ),
{
    reveal(validated);
}

/// An invocation with another number of arguments than the declared one is
/// refused with the type error that names both numbers. Behind the request
/// for the arguments the record holds the making of that error and its
/// throwing, and nothing else: no argument is validated, and there are no
/// arguments with which the function could be called.
pub proof fn lemma_arity_mismatch(
    expected: Seq<Variant>,
    trace: Seq<Exchange>,
    at: int,
    end: int,
    env: Env,
    info: usize,
    result: Result<Vec<Argument>, usize>,
)
    requires
        entered(expected, trace, at, end, env, info, result),
        trace[at].reply.status.succeeded(),
        trace[at].reply.count() != expected.len(),
    ensures
        result is Err,
        asks(
            trace,
            at + 1,
            env,
            CallView::CreateStringUtf8(
                arity_message(expected.len(), trace[at].reply.count() as nat),
            ),
        ),
        trace[at + 1].reply.status.succeeded() ==> asks(
            trace,
            at + 2,
            env,
            CallView::Ask(
                Query::CreateError {
                    class: ErrorClass::TypeError,
                    message: trace[at + 1].reply.handle(),
                },
            ),
        ),
        result matches Err(placeholder) && threw(
            trace,
            raised_end(trace, at + 1),
            end,
            env,
            raised_error(trace, at + 1),
            placeholder,
        ),
        trace[at + 1].reply.status.succeeded() && trace[at + 2].reply.status.succeeded() ==> asks(
            trace,
            at + 3,
            env,
            CallView::Ask(Query::Throw { exception: trace[at + 2].reply.handle() }),
        ),
        end == raised_end(trace, at + 1) + 2,
        end <= at + 5,
{
}

/// While every argument so far is accepted, so many count as accepted.
pub proof fn lemma_accepted_all(expected: Seq<Variant>, trace: Seq<Exchange>, base: int, upto: int)
    requires
        0 <= upto,
        forall|index: int| 0 <= index < upto ==> verdict(expected, trace, base, index) is Ok,
    ensures
        accepted(expected, trace, base, upto) == upto,
    decreases upto,
{
    if upto > 0 {
        lemma_accepted_all(expected, trace, base, upto - 1);
    }
}

/// The first argument that is refused ends the entry: its error is thrown
/// right where its validation ended, the record ends with that throw, and
/// the result holds no arguments. So no later argument is validated and the
/// function is not called. `base` is where the validation of the first
/// argument starts: behind the request for the arguments.
pub proof fn lemma_short_circuit(
    expected: Seq<Variant>,
    trace: Seq<Exchange>,
    at: int,
    end: int,
    env: Env,
    info: usize,
    result: Result<Vec<Argument>, usize>,
    base: int,
    failing: int,
)
    requires
        entered(expected, trace, at, end, env, info, result),
        trace[at].reply.status.succeeded(),
        base == at + 1,
        trace[at].reply.count() == expected.len(),
        0 <= failing < expected.len(),
        forall|index: int| 0 <= index < failing ==> verdict(expected, trace, base, index) is Ok,
        verdict(expected, trace, base, failing) is Err,
    ensures
        result is Err,
        end == start(expected, trace, base, failing + 1) + 2,
        verdict(expected, trace, base, failing) matches Err(error) && result matches Err(
            placeholder,
        ) && threw(trace, start(expected, trace, base, failing + 1), end, env, error, placeholder),
{
    lemma_accepted_all(expected, trace, base, failing);
    lemma_accepted_stops(expected, trace, base, failing, expected.len() as int);
}

/// An error that carries an exception is thrown as that exception: the
/// handle handed to the host is the one that the error carries.
pub proof fn lemma_exception_identity(
    trace: Seq<Exchange>,
    at: int,
    end: int,
    env: Env,
    error: Error,
    placeholder: usize,
    exception: usize,
)
    requires
        threw(trace, at, end, env, error, placeholder),
        error.exception == Some(exception),
    ensures
        trace[at].call == CallView::Ask(Query::Throw { exception }),
{
}

/// A typed array of another element kind than the expected one is refused
/// with a type error that names the expected array, though the host calls
/// the value a typed array.
pub proof fn lemma_element_kind_named(
    trace: Seq<Exchange>,
    at: int,
    end: int,
    env: Env,
    value: usize,
    kind: ElementKind,
    outcome: Result<(), Error>,
)
    requires
        typed_checked(trace, at, end, env, value, kind, outcome),
        trace[at].reply.status.succeeded(),
        trace[at].reply.flag(),
        trace[at + 1].reply.status.succeeded(),
        trace[at + 1].reply.kind() != kind,
    ensures
        outcome == Err::<(), Error>(raised_error(trace, at + 2)),
        asks(trace, at + 2, env, CallView::CreateStringUtf8(kind.spec_name() + " expected"@)),
        trace[at + 2].reply.status.succeeded() ==> asks(
            trace,
            at + 3,
            env,
            CallView::Ask(
                Query::CreateError {
                    class: ErrorClass::TypeError,
                    message: trace[at + 2].reply.handle(),
                },
            ),
        ),
{
}

/// A 32-bit integer comes back as it went in, from a host that keeps what it is
/// given: the value handed over is the value that the host receives, the
/// reading asks about the handle that the host handed out, and what the host
/// answers is what the reading returns.
pub proof fn lemma_i32_round_trip(
    before: Seq<Exchange>,
    made: Seq<Exchange>,
    read: Seq<Exchange>,
    env: Env,
    value: i32,
    number: Number,
    result: Result<i32, Error>,
)
    requires
        asked(before, made, env, CallView::Ask(Query::CreateInt32 { value: value })),
        wrapped(made.last().reply, env, Ok::<Number, Error>(number)),
        asked(
            read.drop_last(),
            read,
            env,
            CallView::Ask(Query::GetValueInt32 { value: number.raw() }),
        ),
        read.last().reply == (Reply { status: Status::Success, payload: Payload::Int32(value) }),
        answered(read.last().reply, read.last().reply.int32(), result),
    ensures
        read.last().call == CallView::Ask(
            Query::GetValueInt32 { value: made.last().reply.handle() },
        ),
        result == Ok::<i32, Error>(value),
{
}

/// A 64-bit integer comes back as it went in, from a host that keeps what it is
/// given: the value handed over is the value that the host receives, the
/// reading asks about the handle that the host handed out, and what the host
/// answers is what the reading returns.
pub proof fn lemma_i64_round_trip(
    before: Seq<Exchange>,
    made: Seq<Exchange>,
    read: Seq<Exchange>,
    env: Env,
    value: i64,
    number: Number,
    result: Result<i64, Error>,
)
    requires
        asked(before, made, env, CallView::Ask(Query::CreateInt64 { value: value })),
        wrapped(made.last().reply, env, Ok::<Number, Error>(number)),
        asked(
            read.drop_last(),
            read,
            env,
            CallView::Ask(Query::GetValueInt64 { value: number.raw() }),
        ),
        read.last().reply == (Reply { status: Status::Success, payload: Payload::Int64(value) }),
        answered(read.last().reply, read.last().reply.int64(), result),
    ensures
        read.last().call == CallView::Ask(
            Query::GetValueInt64 { value: made.last().reply.handle() },
        ),
        result == Ok::<i64, Error>(value),
{
}

/// A 64-bit float, by its bits, comes back as it went in, from a host that keeps what it is
/// given: the value handed over is the value that the host receives, the
/// reading asks about the handle that the host handed out, and what the host
/// answers is what the reading returns.
pub proof fn lemma_f64_round_trip(
    before: Seq<Exchange>,
    made: Seq<Exchange>,
    read: Seq<Exchange>,
    env: Env,
    value: u64,
    number: Number,
    result: Result<u64, Error>,
)
    requires
        asked(before, made, env, CallView::Ask(Query::CreateDouble { bits: value })),
        wrapped(made.last().reply, env, Ok::<Number, Error>(number)),
        asked(
            read.drop_last(),
            read,
            env,
            CallView::Ask(Query::GetValueDouble { value: number.raw() }),
        ),
        read.last().reply == (Reply { status: Status::Success, payload: Payload::Double(value) }),
        answered(read.last().reply, read.last().reply.double(), result),
    ensures
        read.last().call == CallView::Ask(
            Query::GetValueDouble { value: made.last().reply.handle() },
        ),
        result == Ok::<u64, Error>(value),
{
}

/// A text comes back as it went in, from a host that keeps what it is
/// given. Where the host reports the length of the text in UTF-8 and then
/// hands out its UTF-8 bytes with a terminator behind them, the reading as
/// bytes returns those bytes without the terminator, and the reading as text
/// returns the text: the empty text and texts of characters of several
/// bytes too.
pub proof fn lemma_string_round_trip(
    trace: Seq<Exchange>,
    at: int,
    end: int,
    env: Env,
    value: usize,
    text: Seq<char>,
    result: Result<String, Error>,
)
    requires
        fetched(trace, at, end, env, value, Encoding::Utf8),
        trace[at].reply.status.succeeded(),
        trace[at].reply.size() == encode_utf8(text).len(),
        encode_utf8(text).len() < usize::MAX,
        trace[at + 1].reply.status.succeeded(),
        trace[at + 1].reply.spec_bytes() == encode_utf8(text).push(0),
        read_as_text(fetch_result(trace, at, trace[at + 1].reply.spec_bytes()), result),
    ensures
        fetch_result(trace, at, trace[at + 1].reply.spec_bytes()) == Ok::<Seq<u8>, Error>(
            encode_utf8(text),
        ),
        result matches Ok(read) && read@ == text,
{
    broadcast use {encode_utf8_valid_utf8, encode_utf8_decode_utf8};

    assert(encode_utf8(text).push(0).drop_last() =~= encode_utf8(text));
}

/// The units of a string come back as they went in, from a host that keeps
/// what it is given: where the host reports their number and then hands
/// them out with a terminator behind them, the reading returns exactly
/// them. This holds of Latin-1 bytes and of UTF-16 code units alike.
pub proof fn lemma_units_round_trip<T>(
    trace: Seq<Exchange>,
    at: int,
    end: int,
    env: Env,
    value: usize,
    encoding: Encoding,
    units: Seq<T>,
    terminator: T,
)
    requires
        fetched(trace, at, end, env, value, encoding),
        trace[at].reply.status.succeeded(),
        trace[at].reply.size() == units.len(),
        units.len() < usize::MAX,
        trace[at + 1].reply.status.succeeded(),
    ensures
        end == at + 2,
        asks(
            trace,
            at + 1,
            env,
            CallView::Ask(
                Query::StringContent { encoding, value, capacity: (units.len() + 1) as usize },
            ),
        ),
        fetch_result(trace, at, units.push(terminator)) == Ok::<Seq<T>, Error>(units),
{
    assert(units.push(terminator).drop_last() =~= units);
}

} // verus!
