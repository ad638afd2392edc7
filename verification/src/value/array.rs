use vstd::prelude::*;

use crate::env::Env;
use crate::host::{asked, Call, CallView, Host, Predicate, Query, Session};
use crate::result::Error;

use super::{answered, expect, judged, unit, wrapped, Any, AsObject, Value, ValueInternal};

verus! {

/// An array of the host: an object of which the host says that it is an
/// array.
#[derive(Clone, Copy, Debug)]
pub struct Array {
    value: usize,
    env: Env,
}

impl Array {
    /// A new empty array.
    pub fn new<H: Host>(host: &mut Session<H>, env: Env) -> (result: Result<Array, Error>)
        ensures
            asked(old(host).trace(), final(host).trace(), env, CallView::Ask(Query::CreateArray)),
            wrapped(final(host).answer(), env, result),
    {
        let reply = host.call(env, Call::Ask(Query::CreateArray));
        env.handle_status(reply.status)?;
        Ok(Array { value: reply.handle(), env })
    }

    /// A new array of length `len`.
    pub fn with_len<H: Host>(
        host: &mut Session<H>,
        env: Env,
        len: usize,
    ) -> (result: Result<Array, Error>)
        ensures
            asked(
                old(host).trace(),
                final(host).trace(),
                env,
                CallView::Ask(Query::CreateArrayWithLength { len }),
            ),
            wrapped(final(host).answer(), env, result),
    {
        let reply = host.call(env, Call::Ask(Query::CreateArrayWithLength { len }));
        env.handle_status(reply.status)?;
        Ok(Array { value: reply.handle(), env })
    }

    /// The array's length, as the host reports it.
    pub fn len<H: Host>(&self, host: &mut Session<H>) -> (result: Result<u32, Error>)
        ensures
            asked(
                old(host).trace(),
                final(host).trace(),
                self.context(),
                CallView::Ask(Query::GetArrayLength { value: self.raw() }),
            ),
            answered(final(host).answer(), final(host).answer().length(), result),
    {
        let reply = host.call(self.env, Call::Ask(Query::GetArrayLength { value: self.value }));
        self.env.handle_status(reply.status)?;
        Ok(reply.length())
    }

    /// Whether the array's length is 0. The host is asked for the length.
    pub fn is_empty<H: Host>(&self, host: &mut Session<H>) -> (result: Result<bool, Error>)
        ensures
            asked(
                old(host).trace(),
                final(host).trace(),
                self.context(),
                CallView::Ask(Query::GetArrayLength { value: self.raw() }),
            ),
            answered(final(host).answer(), final(host).answer().length() == 0, result),
    {
        match self.len(host) {
            Ok(len) => Ok(len == 0),
            Err(error) => Err(error),
        }
    }

    /// The element at `index`.
    pub fn get<H: Host>(&self, host: &mut Session<H>, index: u32) -> (result: Result<Any, Error>)
        ensures
            asked(
                old(host).trace(),
                final(host).trace(),
                self.context(),
                CallView::Ask(Query::GetElement { object: self.raw(), index }),
            ),
            wrapped(final(host).answer(), self.context(), result),
    {
        self.as_napi_object().get_element(host, index)
    }

    /// Sets the element at `index` to `value`.
    pub fn set<H: Host, T: Value>(
        &self,
        host: &mut Session<H>,
        index: u32,
        value: &T,
    ) -> (result: Result<(), Error>)
        ensures
            asked(
                old(host).trace(),
                final(host).trace(),
                self.context(),
                CallView::Ask(Query::SetElement { object: self.raw(), index, value: value.raw() }),
            ),
            answered(final(host).answer(), (), result),
    {
        self.as_napi_object().set_element(host, index, value)
    }
}

impl Value for Array {
    closed spec fn raw(&self) -> usize {
        self.value
    }

    closed spec fn context(&self) -> Env {
        self.env
    }

    fn as_sys_value(&self) -> usize {
        self.value
    }

    fn env(&self) -> Env {
        self.env
    }

    fn from_sys_checked<H: Host>(
        host: &mut Session<H>,
        env: Env,
        value: usize,
    ) -> (result: Result<Array, Error>)
        ensures
            judged(
                final(host).trace(),
                old(host).trace().len() as int,
                final(host).trace().len() as int,
                env,
                Query::Test { predicate: Predicate::Array, value },
                final(host).trace()[old(host).trace().len() as int].reply.flag(),
                "Array expected"@,
                unit(result),
            ),
    {
        expect(host, env, value, Predicate::Array, "Array expected")?;
        Ok(Array { env, value })
    }
}

impl ValueInternal for Array {
    fn construct(env: Env, value: usize) -> Array {
        Array { env, value }
    }
}

impl AsObject for Array {
}

} // verus!
