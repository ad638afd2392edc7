use vstd::prelude::*;

use crate::env::Env;
use crate::host::{
    asked, continues, lemma_asked_continues, Call, CallView, Host, Predicate, Query, Session,
};
use crate::result::Error;

use super::{
    check_type, judged, refuse, unit, wrapped, Array, Boolean, Null, Number, Object, String,
    Undefined, Value, ValueInternal, ValueType,
};

verus! {

/// A value of the host of which nothing is claimed.
#[derive(Clone, Copy, Debug)]
pub struct Any {
    value: usize,
    env: Env,
}

/// The tags of the values that can be used as objects.
pub open spec fn object_like(tag: ValueType) -> bool {
    tag == ValueType::Object || tag == ValueType::String || tag == ValueType::Function
}

impl Any {
    /// The host's `undefined`, with nothing claimed of it.
    pub fn new<H: Host>(host: &mut Session<H>, env: Env) -> (result: Result<Any, Error>)
        ensures
            asked(old(host).trace(), final(host).trace(), env, CallView::Ask(Query::GetUndefined)),
            wrapped(final(host).answer(), env, result),
    {
        let reply = host.call(env, Call::Ask(Query::GetUndefined));
        env.handle_status(reply.status)?;
        Ok(Any { value: reply.handle(), env })
    }

    /// Wraps a handle without asking the host anything about it.
    pub fn with_value(env: Env, value: usize) -> (any: Any)
        ensures
            any.raw() == value,
            any.context() == env,
    {
        Any { env, value }
    }

    /// The value as `undefined`, if the host tags it so.
    pub fn as_undefined<H: Host>(&self, host: &mut Session<H>) -> (result: Result<Undefined, Error>)
        ensures
            continues(old(host).trace(), final(host).trace()),
            judged(
                final(host).trace(),
                old(host).trace().len() as int,
                final(host).trace().len() as int,
                self.context(),
                Query::TypeOf { value: self.raw() },
                final(host).trace()[old(host).trace().len() as int].reply.tag()
                    == ValueType::Undefined,
                "undefined expected"@,
                unit(result),
            ),
            result matches Ok(cast)
                ==> cast.raw() == self.raw() && cast.context() == self.context(),
    {
        let ghost before = host.trace();
        let tag = self.value_type(host);
        proof {
            lemma_asked_continues(
                before,
                host.trace(),
                self.env,
                CallView::Ask(Query::TypeOf { value: self.value }),
            );
        }
        match tag? {
            ValueType::Undefined => Ok(Undefined::construct(self.env, self.value)),
            _ => Err(refuse(host, self.env, "undefined expected", Ghost(before))),
        }
    }

    /// The value as `null`, if the host tags it so.
    pub fn as_null<H: Host>(&self, host: &mut Session<H>) -> (result: Result<Null, Error>)
        ensures
            continues(old(host).trace(), final(host).trace()),
            judged(
                final(host).trace(),
                old(host).trace().len() as int,
                final(host).trace().len() as int,
                self.context(),
                Query::TypeOf { value: self.raw() },
                final(host).trace()[old(host).trace().len() as int].reply.tag() == ValueType::Null,
                "null expected"@,
                unit(result),
            ),
            result matches Ok(cast)
                ==> cast.raw() == self.raw() && cast.context() == self.context(),
    {
        let ghost before = host.trace();
        let tag = self.value_type(host);
        proof {
            lemma_asked_continues(
                before,
                host.trace(),
                self.env,
                CallView::Ask(Query::TypeOf { value: self.value }),
            );
        }
        match tag? {
            ValueType::Null => Ok(Null::construct(self.env, self.value)),
            _ => Err(refuse(host, self.env, "null expected", Ghost(before))),
        }
    }

    /// The value as a boolean, if the host tags it so.
    pub fn as_boolean<H: Host>(&self, host: &mut Session<H>) -> (result: Result<Boolean, Error>)
        ensures
            continues(old(host).trace(), final(host).trace()),
            judged(
                final(host).trace(),
                old(host).trace().len() as int,
                final(host).trace().len() as int,
                self.context(),
                Query::TypeOf { value: self.raw() },
                final(host).trace()[old(host).trace().len() as int].reply.tag()
                    == ValueType::Boolean,
                "boolean expected"@,
                unit(result),
            ),
            result matches Ok(cast)
                ==> cast.raw() == self.raw() && cast.context() == self.context(),
    {
        let ghost before = host.trace();
        let tag = self.value_type(host);
        proof {
            lemma_asked_continues(
                before,
                host.trace(),
                self.env,
                CallView::Ask(Query::TypeOf { value: self.value }),
            );
        }
        match tag? {
            ValueType::Boolean => Ok(Boolean::construct(self.env, self.value)),
            _ => Err(refuse(host, self.env, "boolean expected", Ghost(before))),
        }
    }

    /// The value as a number, if the host tags it so.
    pub fn as_number<H: Host>(&self, host: &mut Session<H>) -> (result: Result<Number, Error>)
        ensures
            continues(old(host).trace(), final(host).trace()),
            judged(
                final(host).trace(),
                old(host).trace().len() as int,
                final(host).trace().len() as int,
                self.context(),
                Query::TypeOf { value: self.raw() },
                final(host).trace()[old(host).trace().len() as int].reply.tag()
                    == ValueType::Number,
                "number expected"@,
                unit(result),
            ),
            result matches Ok(cast)
                ==> cast.raw() == self.raw() && cast.context() == self.context(),
    {
        let ghost before = host.trace();
        let tag = self.value_type(host);
        proof {
            lemma_asked_continues(
                before,
                host.trace(),
                self.env,
                CallView::Ask(Query::TypeOf { value: self.value }),
            );
        }
        match tag? {
            ValueType::Number => Ok(Number::construct(self.env, self.value)),
            _ => Err(refuse(host, self.env, "number expected", Ghost(before))),
        }
    }

    /// The value as a string, if the host tags it so.
    pub fn as_string<H: Host>(&self, host: &mut Session<H>) -> (result: Result<String, Error>)
        ensures
            continues(old(host).trace(), final(host).trace()),
            judged(
                final(host).trace(),
                old(host).trace().len() as int,
                final(host).trace().len() as int,
                self.context(),
                Query::TypeOf { value: self.raw() },
                final(host).trace()[old(host).trace().len() as int].reply.tag()
                    == ValueType::String,
                "string expected"@,
                unit(result),
            ),
            result matches Ok(cast)
                ==> cast.raw() == self.raw() && cast.context() == self.context(),
    {
        let ghost before = host.trace();
        let tag = self.value_type(host);
        proof {
            lemma_asked_continues(
                before,
                host.trace(),
                self.env,
                CallView::Ask(Query::TypeOf { value: self.value }),
            );
        }
        match tag? {
            ValueType::String => Ok(String::construct(self.env, self.value)),
            _ => Err(refuse(host, self.env, "string expected", Ghost(before))),
        }
    }

    /// The value as an object, if the host tags it as an object, a string or a
    /// function.
    pub fn as_object<H: Host>(&self, host: &mut Session<H>) -> (result: Result<Object, Error>)
        ensures
            continues(old(host).trace(), final(host).trace()),
            judged(
                final(host).trace(),
                old(host).trace().len() as int,
                final(host).trace().len() as int,
                self.context(),
                Query::TypeOf { value: self.raw() },
                object_like(final(host).trace()[old(host).trace().len() as int].reply.tag()),
                "object expected"@,
                unit(result),
            ),
            result matches Ok(cast)
                ==> cast.raw() == self.raw() && cast.context() == self.context(),
    {
        let ghost before = host.trace();
        let tag = self.value_type(host);
        proof {
            lemma_asked_continues(
                before,
                host.trace(),
                self.env,
                CallView::Ask(Query::TypeOf { value: self.value }),
            );
        }
        match tag? {
            ValueType::Object | ValueType::String | ValueType::Function => Ok(
                Object::construct(self.env, self.value),
            ),
            _ => Err(refuse(host, self.env, "object expected", Ghost(before))),
        }
    }

    /// The value as an array, if the host says that it is one.
    pub fn as_array<H: Host>(&self, host: &mut Session<H>) -> (result: Result<Array, Error>)
        ensures
            continues(old(host).trace(), final(host).trace()),
            judged(
                final(host).trace(),
                old(host).trace().len() as int,
                final(host).trace().len() as int,
                self.context(),
                Query::Test { predicate: Predicate::Array, value: self.raw() },
                final(host).trace()[old(host).trace().len() as int].reply.flag(),
                "array expected"@,
                unit(result),
            ),
            result matches Ok(cast)
                ==> cast.raw() == self.raw() && cast.context() == self.context(),
    {
        let ghost before = host.trace();
        let flag = check_type(self, host, Predicate::Array);
        proof {
            lemma_asked_continues(
                before,
                host.trace(),
                self.env,
                CallView::Ask(Query::Test { predicate: Predicate::Array, value: self.value }),
            );
        }
        if flag? {
            Ok(Array::construct(self.env, self.value))
        } else {
            Err(refuse(host, self.env, "array expected", Ghost(before)))
        }
    }
}

impl Value for Any {
    closed spec fn raw(&self) -> usize {
        self.value
    }

    closed spec fn context(&self) -> Env {
        self.env
    }

    fn as_sys_value(&self) -> usize {
        self.value
    }

    fn env(&self) -> Env {
        self.env
    }

    /// Nothing is claimed, so nothing is asked: every handle is accepted.
    fn from_sys_checked<H: Host>(
        host: &mut Session<H>,
        env: Env,
        value: usize,
    ) -> (result: Result<Any, Error>)
        ensures
            final(host).trace() == old(host).trace(),
            result is Ok,
    {
        proof {
            assert(host.trace().take(host.trace().len() as int) =~= host.trace());
        }
        Ok(Any { env, value })
    }
}

} // verus!
