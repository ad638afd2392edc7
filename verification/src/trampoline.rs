use vstd::prelude::*;
use vstd::string::*;

use crate::env::Env;
use crate::host::{
    asks, continues, lemma_asked_continues, lemma_continues_index, lemma_continues_refl,
    lemma_continues_trans, Call, CallView, Exchange, Host, Query, Reply, Session,
};
use crate::result::Error;
use crate::text::{decimal, is_representable, representable, to_decimal};
use crate::value::{raised, raised_end, raised_error, refuse, unit, Layout, Value};
use crate::variant::{validated, Argument, Variant};

verus! {

/// The text that is thrown for an error that carries no exception: the
/// error as shown to a reader, or only the description of its kind where
/// that text holds a NUL and cannot be handed to the host.
pub open spec fn thrown_text(error: Error) -> Seq<char> {
    if representable(error.display()) {
        error.display()
    } else {
        Error::text(error.kind)
    }
}

/// The exchanges of `trace` from `at` to `end` are the throwing of `error`:
/// the host is asked to throw the exception that the error carries, that
/// very handle, or else a generic error with the error's text; then it is
/// asked for its `undefined`, whose handle is the `placeholder` that the
/// callback returns. What the host answers to the throwing changes
/// nothing.
pub open spec fn threw(
    trace: Seq<Exchange>,
    at: int,
    end: int,
    env: Env,
    error: Error,
    placeholder: usize,
) -> bool {
    &&& end == at + 2
    &&& end <= trace.len()
    &&& asks(
        trace,
        at,
        env,
        match error.exception {
            Some(exception) => CallView::Ask(Query::Throw { exception }),
            None => CallView::ThrowError(thrown_text(error)),
        },
    )
    &&& asks(trace, at + 1, env, CallView::Ask(Query::GetUndefined))
    &&& placeholder == trace[at + 1].reply.handle()
}

/// Hands `error` to the host as an exception and fetches the placeholder
/// that the callback has to return after that.
pub fn return_error<H: Host>(host: &mut Session<H>, env: Env, error: &Error) -> (placeholder: usize)
    ensures
        continues(old(host).trace(), final(host).trace()),
        threw(
            final(host).trace(),
            old(host).trace().len() as int,
            final(host).trace().len() as int,
            env,
            *error,
            placeholder,
        ),
{
    let ghost before = host.trace();
    match error.exception {
        Some(exception) => {
            host.call(env, Call::Ask(Query::Throw { exception }));
        },
        None => {
            let message = error.to_string();
            let message = if is_representable(message.as_str()) {
                message
            } else {
                error.description().to_owned()
            };
            host.call(env, Call::ThrowError(message));
        },
    }
    let ghost middle = host.trace();
    proof {
        lemma_asked_continues(before, middle, env, middle.last().call);
    }
    let reply = host.call(env, Call::Ask(Query::GetUndefined));
    proof {
        lemma_asked_continues(middle, host.trace(), env, CallView::Ask(Query::GetUndefined));
        lemma_continues_trans(before, middle, host.trace());
    }
    reply.handle()
}

/// Ends a callback: hands back the handle of the value that the function
/// returned, or throws its error and hands back the placeholder.
pub fn leave<H: Host, R: Value>(
    host: &mut Session<H>,
    env: Env,
    result: Result<R, Error>,
) -> (handle: usize)
    ensures
        match result {
            Ok(value) => final(host).trace() == old(host).trace() && handle == value.raw(),
            Err(error) => continues(old(host).trace(), final(host).trace()) && threw(
                final(host).trace(),
                old(host).trace().len() as int,
                final(host).trace().len() as int,
                env,
                error,
                handle,
            ),
        },
{
    match result {
        Ok(value) => value.as_sys_value(),
        Err(error) => return_error(host, env, &error),
    }
}

/// The message with which an invocation is refused that brings `actual`
/// arguments where `expected` are declared.
pub open spec fn arity_message(expected: nat, actual: nat) -> Seq<char> {
    "Expected "@ + decimal(expected) + " arguments, but got "@ + decimal(actual)
}

/// Where the validation of argument `index` starts, when that of the first
/// argument starts at `base`: where the validation of the argument before
/// it ends.
pub open spec fn start(expected: Seq<Variant>, trace: Seq<Exchange>, base: int, index: int) -> int
    decreases index,
{
    if index <= 0 {
        base
    } else {
        expected[index - 1].end(trace, start(expected, trace, base, index - 1))
    }
}

/// What comes of the validation of argument `index`.
pub open spec fn verdict(
    expected: Seq<Variant>,
    trace: Seq<Exchange>,
    base: int,
    index: int,
) -> Result<(), Error> {
    expected[index].outcome(trace, start(expected, trace, base, index))
}

/// How many of the first `upto` arguments are accepted before the first one
/// that is not.
pub open spec fn accepted(expected: Seq<Variant>, trace: Seq<Exchange>, base: int, upto: int) -> int
    decreases upto,
{
    if upto <= 0 {
        0
    } else {
        let before = accepted(expected, trace, base, upto - 1);
        if before == upto - 1 && verdict(expected, trace, base, upto - 1) is Ok {
            upto
        } else {
            before
        }
    }
}

/// What is known of argument `index` once it is accepted: what the last
/// answer of its validation says of it.
pub open spec fn layout_of(
    expected: Seq<Variant>,
    trace: Seq<Exchange>,
    base: int,
    env: Env,
    reply: Reply,
    index: int,
) -> Layout {
    expected[index].layout(
        trace[start(expected, trace, base, index + 1) - 1].reply,
        env,
        reply.argument(index as usize),
    )
}

/// The arguments before `upto` were validated one after the other, each
/// from where the one before it ended, and each as the variant declared for
/// it; `reply` is the host's answer that holds their handles.
pub open spec fn checked_upto(
    expected: Seq<Variant>,
    trace: Seq<Exchange>,
    base: int,
    env: Env,
    reply: Reply,
    upto: int,
) -> bool {
    forall|index: int|
        0 <= index < upto ==> validated(
            expected[index],
            trace,
            #[trigger] start(expected, trace, base, index),
            start(expected, trace, base, index + 1),
            env,
            reply.argument(index as usize),
            verdict(expected, trace, base, index),
        )
}

/// The exchanges of `trace` from `at` to `end` are the entry into a callback
/// that declares the arguments `expected`, for the invocation `info`.
///
/// The host is asked for the invocation's arguments. If it fails to answer,
/// the failing status is thrown. If the number of arguments is not the
/// declared one, a type error that names both numbers is made and thrown.
/// Otherwise the arguments are validated in order, each as the variant
/// declared for it, up to the first that is refused, whose error is thrown.
/// After a throw nothing more is asked, and the result is the placeholder
/// that the callback has to return. Only when every argument is accepted is
/// the result the validated arguments.
pub open spec fn entered(
    expected: Seq<Variant>,
    trace: Seq<Exchange>,
    at: int,
    end: int,
    env: Env,
    info: usize,
    result: Result<Vec<Argument>, usize>,
) -> bool {
    let reply = trace[at].reply;
    let base = at + 1;
    let count = expected.len() as int;
    &&& asks(
        trace,
        at,
        env,
        CallView::Ask(Query::GetCallbackInfo { info, capacity: expected.len() as usize }),
    )
    &&& end <= trace.len()
    &&& if !reply.status.succeeded() {
        result matches Err(placeholder) && threw(
            trace,
            base,
            end,
            env,
            Error::failure(reply.status),
            placeholder,
        )
    } else if reply.count() != count {
        &&& raised(
            trace,
            base,
            raised_end(trace, base),
            env,
            arity_message(count as nat, reply.count() as nat),
            raised_error(trace, base),
        )
        &&& result matches Err(placeholder) && threw(
            trace,
            raised_end(trace, base),
            end,
            env,
            raised_error(trace, base),
            placeholder,
        )
    } else {
        let stop = accepted(expected, trace, base, count);
        &&& checked_upto(expected, trace, base, env, reply, if stop < count {
            stop + 1
        } else {
            count
        })
        &&& if stop < count {
            &&& verdict(expected, trace, base, stop) matches Err(error)
            &&& result matches Err(placeholder)
            &&& threw(trace, start(expected, trace, base, stop + 1), end, env, error, placeholder)
        } else {
            &&& end == start(expected, trace, base, count)
            &&& result matches Ok(arguments)
            &&& arguments@.len() == count
            &&& forall|index: int|
                0 <= index < count ==> (#[trigger] arguments@[index]).variant() == expected[index]
                    && arguments@[index].layout() == layout_of(
                    expected,
                    trace,
                    base,
                    env,
                    reply,
                    index,
                )
        }
    }
}

/// A validation fixes where it ends and what comes of it.
proof fn lemma_validated_determined(
    variant: Variant,
    trace: Seq<Exchange>,
    at: int,
    end: int,
    env: Env,
    value: usize,
    outcome: Result<(), Error>,
)
    requires
        validated(variant, trace, at, end, env, value, outcome),
    ensures
        end == variant.end(trace, at),
        outcome == variant.outcome(trace, at),
        at <= end <= trace.len(),
{
    reveal(validated);
}

/// A validation on record stays what it was when the record goes on.
proof fn lemma_validated_stable(
    variant: Variant,
    before: Seq<Exchange>,
    after: Seq<Exchange>,
    at: int,
    end: int,
    env: Env,
    value: usize,
    outcome: Result<(), Error>,
)
    requires
        continues(before, after),
        0 <= at,
        validated(variant, before, at, end, env, value, outcome),
    ensures
        validated(variant, after, at, end, env, value, outcome),
        variant.end(after, at) == end,
        variant.outcome(after, at) == outcome,
        forall|reply: int| at <= reply < end ==> before[reply] == after[reply],
{
    reveal(validated);
    lemma_continues_index(before, after);
    lemma_validated_determined(variant, before, at, end, env, value, outcome);
}

/// Validated arguments on record stay what they were when the record goes
/// on.
proof fn lemma_checked_stable(
    expected: Seq<Variant>,
    before: Seq<Exchange>,
    after: Seq<Exchange>,
    base: int,
    env: Env,
    reply: Reply,
    upto: int,
)
    requires
        continues(before, after),
        0 <= base <= before.len(),
        0 <= upto <= expected.len(),
        checked_upto(expected, before, base, env, reply, upto),
    ensures
        checked_upto(expected, after, base, env, reply, upto),
        forall|index: int|
            0 <= index <= upto ==> #[trigger] start(expected, after, base, index) == start(
                expected,
                before,
                base,
                index,
            ),
        forall|index: int|
            0 <= index < upto ==> #[trigger] verdict(expected, after, base, index) == verdict(
                expected,
                before,
                base,
                index,
            ),
        forall|index: int|
            0 <= index <= upto ==> base <= #[trigger] start(expected, before, base, index)
                <= before.len(),
        forall|index: int|
            0 <= index < upto ==> #[trigger] layout_of(expected, after, base, env, reply, index)
                == layout_of(expected, before, base, env, reply, index),
        accepted(expected, after, base, upto) == accepted(expected, before, base, upto),
    decreases upto,
{
    if upto > 0 {
        let last = upto - 1;
        assert(checked_upto(expected, before, base, env, reply, last));
        lemma_checked_stable(expected, before, after, base, env, reply, last);
        let at = start(expected, before, base, last);
        assert(validated(
            expected[last],
            before,
            at,
            start(expected, before, base, last + 1),
            env,
            reply.argument(last as usize),
            verdict(expected, before, base, last),
        ));
        lemma_validated_determined(
            expected[last],
            before,
            at,
            start(expected, before, base, last + 1),
            env,
            reply.argument(last as usize),
            verdict(expected, before, base, last),
        );
        lemma_validated_stable(
            expected[last],
            before,
            after,
            at,
            start(expected, before, base, last + 1),
            env,
            reply.argument(last as usize),
            verdict(expected, before, base, last),
        );
        assert(start(expected, after, base, last) == at);
        assert(start(expected, after, base, upto) == start(expected, before, base, upto));
        assert(verdict(expected, after, base, last) == verdict(expected, before, base, last));
        assert(layout_of(expected, after, base, env, reply, last) == layout_of(
            expected,
            before,
            base,
            env,
            reply,
            last,
        ));
        assert forall|index: int| 0 <= index < upto implies validated(
            expected[index],
            after,
            #[trigger] start(expected, after, base, index),
            start(expected, after, base, index + 1),
            env,
            reply.argument(index as usize),
            verdict(expected, after, base, index),
        ) by {
            if index < last {
                assert(start(expected, after, base, index) == start(expected, before, base, index));
            }
        }
    }
}

/// Once an argument is refused, no later one counts as accepted.
pub(crate) proof fn lemma_accepted_stops(
    expected: Seq<Variant>,
    trace: Seq<Exchange>,
    base: int,
    stop: int,
    upto: int,
)
    requires
        0 <= stop < upto,
        accepted(expected, trace, base, stop) == stop,
        verdict(expected, trace, base, stop) is Err,
    ensures
        accepted(expected, trace, base, upto) == stop,
    decreases upto,
{
    if upto > stop + 1 {
        lemma_accepted_stops(expected, trace, base, stop, upto - 1);
    }
}

/// The table of a callback: the variants that it declares for its
/// arguments, in order.
pub struct Trampoline {
    expected: Vec<Variant>,
}

impl Trampoline {
    /// The declared variants, in order.
    pub closed spec fn signature(&self) -> Seq<Variant> {
        self.expected@
    }

    /// The table of a callback that declares `expected`.
    pub fn new(expected: Vec<Variant>) -> (trampoline: Trampoline)
        ensures
            trampoline.signature() == expected@,
    {
        Trampoline { expected }
    }

    /// The number of declared arguments.
    pub fn arity(&self) -> (count: usize)
        ensures
            count == self.signature().len(),
    {
        self.expected.len()
    }

    /// Enters the callback for the invocation `info`: fetches the arguments,
    /// compares their number with the declared one and validates them in
    /// order. The first thing that goes wrong is thrown, and nothing is
    /// asked after that.
    pub fn enter<H: Host>(
        &self,
        host: &mut Session<H>,
        env: Env,
        info: usize,
    ) -> (result: Result<Vec<Argument>, usize>)
        ensures
            continues(old(host).trace(), final(host).trace()),
            entered(
                self.signature(),
                final(host).trace(),
                old(host).trace().len() as int,
                final(host).trace().len() as int,
                env,
                info,
                result,
            ),
    {
        let ghost before = host.trace();
        let ghost at = before.len() as int;
        let ghost base = at + 1;
        let ghost expected = self.expected@;
        let count = self.expected.len();
        let question = Query::GetCallbackInfo { info, capacity: count };
        let reply = host.call(env, Call::Ask(question));
        let ghost informed = host.trace();
        proof {
            lemma_asked_continues(before, informed, env, CallView::Ask(question));
        }
        if let Err(error) = env.handle_status(reply.status) {
            let placeholder = return_error(host, env, &error);
            proof {
                lemma_continues_trans(before, informed, host.trace());
            }
            return Err(placeholder);
        }
        if reply.count() != count {
            let mut message = "Expected ".to_owned();
            message.append(to_decimal(count).as_str());
            message.append(" arguments, but got ");
            message.append(to_decimal(reply.count()).as_str());
            assert(message@ =~= arity_message(count as nat, reply.count() as nat));
            let error = refuse(host, env, message.as_str(), Ghost(before));
            let ghost refused = host.trace();
            let placeholder = return_error(host, env, &error);
            proof {
                lemma_continues_trans(informed, refused, host.trace());
                lemma_continues_trans(before, refused, host.trace());
            }
            return Err(placeholder);
        }
        let mut arguments: Vec<Argument> = Vec::new();
        let mut index: usize = 0;
        proof {
            lemma_continues_refl(informed);
        }
        while index < count
            invariant
                expected == self.expected@,
                count == expected.len(),
                index <= count,
                before == old(host).trace(),
                base == before.len() + 1,
                continues(before, host.trace()),
                continues(informed, host.trace()),
                informed.len() == base,
                reply == informed.last().reply,
                reply.status.succeeded(),
                reply.count() == count,
                asks(
                    informed,
                    informed.len() - 1,
                    env,
                    CallView::Ask(Query::GetCallbackInfo { info, capacity: count }),
                ),
                checked_upto(expected, host.trace(), base, env, reply, index as int),
                accepted(expected, host.trace(), base, index as int) == index,
                start(expected, host.trace(), base, index as int) == host.trace().len(),
                arguments@.len() == index,
                forall|seen: int|
                    0 <= seen < index ==> (#[trigger] arguments@[seen]).variant() == expected[seen]
                        && arguments@[seen].layout() == layout_of(
                        expected,
                        host.trace(),
                        base,
                        env,
                        reply,
                        seen,
                    ),
            decreases count - index,
        {
            let ghost current = host.trace();
            let checked = self.expected[index].check(host, env, reply.argument(index));
            let ghost judged_trace = host.trace();
            proof {
                lemma_continues_trans(before, current, judged_trace);
                lemma_continues_trans(informed, current, judged_trace);
                lemma_step(
                    expected,
                    current,
                    judged_trace,
                    base,
                    env,
                    reply,
                    index as int,
                    unit(checked),
                );
            }
            match checked {
                Ok(argument) => {
                    arguments.push(argument);
                },
                Err(error) => {
                    let placeholder = return_error(host, env, &error);
                    proof {
                        let thrown = host.trace();
                        lemma_continues_trans(before, judged_trace, thrown);
                        lemma_continues_trans(informed, judged_trace, thrown);
                        lemma_continues_index(informed, thrown);
                        lemma_entered_refused(
                            expected,
                            informed,
                            judged_trace,
                            thrown,
                            env,
                            info,
                            index as int,
                            error,
                            placeholder,
                        );
                    }
                    return Err(placeholder);
                },
            }
            index += 1;
        }
        proof {
            lemma_entered_accepted(expected, informed, host.trace(), env, info, arguments);
        }
        Ok(arguments)
    }
}

/// The entry into a callback whose argument `index` was refused and thrown.
proof fn lemma_entered_refused(
    expected: Seq<Variant>,
    informed: Seq<Exchange>,
    judged_trace: Seq<Exchange>,
    thrown: Seq<Exchange>,
    env: Env,
    info: usize,
    index: int,
    error: Error,
    placeholder: usize,
)
    requires
        informed.len() > 0,
        continues(informed, judged_trace),
        continues(judged_trace, thrown),
        asks(
            informed,
            informed.len() - 1,
            env,
            CallView::Ask(Query::GetCallbackInfo { info, capacity: expected.len() as usize }),
        ),
        informed.last().reply.status.succeeded(),
        informed.last().reply.count() == expected.len(),
        0 <= index < expected.len(),
        checked_upto(
            expected,
            judged_trace,
            informed.len() as int,
            env,
            informed.last().reply,
            index + 1,
        ),
        accepted(expected, judged_trace, informed.len() as int, index) == index,
        verdict(expected, judged_trace, informed.len() as int, index) == Err::<(), Error>(error),
        start(expected, judged_trace, informed.len() as int, index + 1) == judged_trace.len(),
        threw(thrown, judged_trace.len() as int, thrown.len() as int, env, error, placeholder),
    ensures
        entered(
            expected,
            thrown,
            informed.len() - 1,
            thrown.len() as int,
            env,
            info,
            Err(placeholder),
        ),
{
    lemma_continues_trans(informed, judged_trace, thrown);
    lemma_continues_index(informed, thrown);
    lemma_refused(
        expected,
        judged_trace,
        thrown,
        informed.len() as int,
        env,
        informed.last().reply,
        index,
    );
}

/// The entry into a callback whose arguments were all accepted.
proof fn lemma_entered_accepted(
    expected: Seq<Variant>,
    informed: Seq<Exchange>,
    trace: Seq<Exchange>,
    env: Env,
    info: usize,
    arguments: Vec<Argument>,
)
    requires
        informed.len() > 0,
        continues(informed, trace),
        asks(
            informed,
            informed.len() - 1,
            env,
            CallView::Ask(Query::GetCallbackInfo { info, capacity: expected.len() as usize }),
        ),
        informed.last().reply.status.succeeded(),
        informed.last().reply.count() == expected.len(),
        checked_upto(
            expected,
            trace,
            informed.len() as int,
            env,
            informed.last().reply,
            expected.len() as int,
        ),
        accepted(expected, trace, informed.len() as int, expected.len() as int) == expected.len(),
        start(expected, trace, informed.len() as int, expected.len() as int) == trace.len(),
        arguments@.len() == expected.len(),
        forall|seen: int|
            0 <= seen < expected.len() ==> (#[trigger] arguments@[seen]).variant() == expected[seen]
                && arguments@[seen].layout() == layout_of(
                expected,
                trace,
                informed.len() as int,
                env,
                informed.last().reply,
                seen,
            ),
    ensures
        entered(expected, trace, informed.len() - 1, trace.len() as int, env, info, Ok(arguments)),
{
    lemma_continues_index(informed, trace);
}

/// One more validated argument: what holds of the arguments before it holds
/// on, and the next validation starts where this one ended.
proof fn lemma_step(
    expected: Seq<Variant>,
    current: Seq<Exchange>,
    after: Seq<Exchange>,
    base: int,
    env: Env,
    reply: Reply,
    index: int,
    outcome: Result<(), Error>,
)
    requires
        continues(current, after),
        0 <= base <= current.len(),
        0 <= index < expected.len(),
        checked_upto(expected, current, base, env, reply, index),
        accepted(expected, current, base, index) == index,
        start(expected, current, base, index) == current.len(),
        validated(
            expected[index],
            after,
            current.len() as int,
            after.len() as int,
            env,
            reply.argument(index as usize),
            outcome,
        ),
    ensures
        checked_upto(expected, after, base, env, reply, index + 1),
        start(expected, after, base, index + 1) == after.len(),
        verdict(expected, after, base, index) == outcome,
        accepted(expected, after, base, index) == index,
        outcome is Ok ==> accepted(expected, after, base, index + 1) == index + 1,
        forall|seen: int|
            0 <= seen < index ==> #[trigger] layout_of(expected, after, base, env, reply, seen)
                == layout_of(expected, current, base, env, reply, seen),
        layout_of(expected, after, base, env, reply, index) == expected[index].layout(
            after[after.len() - 1].reply,
            env,
            reply.argument(index as usize),
        ),
{
    lemma_checked_stable(expected, current, after, base, env, reply, index);
    lemma_validated_determined(
        expected[index],
        after,
        current.len() as int,
        after.len() as int,
        env,
        reply.argument(index as usize),
        outcome,
    );
    assert(start(expected, after, base, index) == current.len());
    assert(start(expected, after, base, index + 1) == expected[index].end(
        after,
        start(expected, after, base, index),
    ));
    assert forall|seen: int| 0 <= seen < index + 1 implies validated(
        expected[seen],
        after,
        #[trigger] start(expected, after, base, seen),
        start(expected, after, base, seen + 1),
        env,
        reply.argument(seen as usize),
        verdict(expected, after, base, seen),
    ) by {
    }
}

/// A refused argument ends the validation: with the record going on, it is
/// still the first argument that was not accepted.
proof fn lemma_refused(
    expected: Seq<Variant>,
    judged_trace: Seq<Exchange>,
    thrown: Seq<Exchange>,
    base: int,
    env: Env,
    reply: Reply,
    index: int,
)
    requires
        continues(judged_trace, thrown),
        0 <= base <= judged_trace.len(),
        0 <= index < expected.len(),
        checked_upto(expected, judged_trace, base, env, reply, index + 1),
        accepted(expected, judged_trace, base, index) == index,
        verdict(expected, judged_trace, base, index) is Err,
    ensures
        checked_upto(expected, thrown, base, env, reply, index + 1),
        accepted(expected, thrown, base, expected.len() as int) == index,
        verdict(expected, thrown, base, index) == verdict(expected, judged_trace, base, index),
        start(expected, thrown, base, index + 1) == start(expected, judged_trace, base, index + 1),
{
    assert(checked_upto(expected, judged_trace, base, env, reply, index));
    lemma_checked_stable(expected, judged_trace, thrown, base, env, reply, index);
    lemma_checked_stable(expected, judged_trace, thrown, base, env, reply, index + 1);
    lemma_accepted_stops(expected, thrown, base, index, expected.len() as int);
}

} // verus!
