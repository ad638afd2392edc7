use vstd::prelude::*;

use crate::env::Env;
use crate::host::{asked, Call, CallView, Host, Query, Session};
use crate::result::Error;

use super::{answered, expect_tag, judged, unit, wrapped, Value, ValueInternal, ValueType};

verus! {

/// A number of the host.
#[derive(Clone, Copy, Debug)]
pub struct Number {
    value: usize,
    env: Env,
}

impl Number {
    /// A new number of the host with the value of a 32-bit integer.
    pub fn from_i32<H: Host>(
        host: &mut Session<H>,
        env: Env,
        value: i32,
    ) -> (result: Result<Number, Error>)
        ensures
            asked(
                old(host).trace(),
                final(host).trace(),
                env,
                CallView::Ask(Query::CreateInt32 { value }),
            ),
            wrapped(final(host).answer(), env, result),
    {
        let reply = host.call(env, Call::Ask(Query::CreateInt32 { value }));
        env.handle_status(reply.status)?;
        Ok(Number { value: reply.handle(), env })
    }

    /// A new number of the host with the value of a 64-bit integer.
    pub fn from_i64<H: Host>(
        host: &mut Session<H>,
        env: Env,
        value: i64,
    ) -> (result: Result<Number, Error>)
        ensures
            asked(
                old(host).trace(),
                final(host).trace(),
                env,
                CallView::Ask(Query::CreateInt64 { value }),
            ),
            wrapped(final(host).answer(), env, result),
    {
        let reply = host.call(env, Call::Ask(Query::CreateInt64 { value }));
        env.handle_status(reply.status)?;
        Ok(Number { value: reply.handle(), env })
    }

    /// A new number of the host from the bits of a 64-bit float.
    pub fn from_f64<H: Host>(
        host: &mut Session<H>,
        env: Env,
        bits: u64,
    ) -> (result: Result<Number, Error>)
        ensures
            asked(
                old(host).trace(),
                final(host).trace(),
                env,
                CallView::Ask(Query::CreateDouble { bits }),
            ),
            wrapped(final(host).answer(), env, result),
    {
        let reply = host.call(env, Call::Ask(Query::CreateDouble { bits }));
        env.handle_status(reply.status)?;
        Ok(Number { value: reply.handle(), env })
    }

    /// The number as a 32-bit integer, as the host reads it.
    pub fn to_i32<H: Host>(&self, host: &mut Session<H>) -> (result: Result<i32, Error>)
        ensures
            asked(
                old(host).trace(),
                final(host).trace(),
                self.context(),
                CallView::Ask(Query::GetValueInt32 { value: self.raw() }),
            ),
            answered(final(host).answer(), final(host).answer().int32(), result),
    {
        let reply = host.call(self.env, Call::Ask(Query::GetValueInt32 { value: self.value }));
        self.env.handle_status(reply.status)?;
        Ok(reply.int32())
    }

    /// The number as a 64-bit integer, as the host reads it.
    pub fn to_i64<H: Host>(&self, host: &mut Session<H>) -> (result: Result<i64, Error>)
        ensures
            asked(
                old(host).trace(),
                final(host).trace(),
                self.context(),
                CallView::Ask(Query::GetValueInt64 { value: self.raw() }),
            ),
            answered(final(host).answer(), final(host).answer().int64(), result),
    {
        let reply = host.call(self.env, Call::Ask(Query::GetValueInt64 { value: self.value }));
        self.env.handle_status(reply.status)?;
        Ok(reply.int64())
    }

    /// The bits of the number as a 64-bit float, as the host reads it.
    pub fn to_f64<H: Host>(&self, host: &mut Session<H>) -> (result: Result<u64, Error>)
        ensures
            asked(
                old(host).trace(),
                final(host).trace(),
                self.context(),
                CallView::Ask(Query::GetValueDouble { value: self.raw() }),
            ),
            answered(final(host).answer(), final(host).answer().double(), result),
    {
        let reply = host.call(self.env, Call::Ask(Query::GetValueDouble { value: self.value }));
        self.env.handle_status(reply.status)?;
        Ok(reply.double())
    }
}

impl Value for Number {
    closed spec fn raw(&self) -> usize {
        self.value
    }

    closed spec fn context(&self) -> Env {
        self.env
    }

    fn as_sys_value(&self) -> usize {
        self.value
    }

    fn env(&self) -> Env {
        self.env
    }

    fn from_sys_checked<H: Host>(
        host: &mut Session<H>,
        env: Env,
        value: usize,
    ) -> (result: Result<Number, Error>)
        ensures
            judged(
                final(host).trace(),
                old(host).trace().len() as int,
                final(host).trace().len() as int,
                env,
                Query::TypeOf { value },
                final(host).trace()[old(host).trace().len() as int].reply.tag()
                    == ValueType::Number,
                "Number expected"@,
                unit(result),
            ),
    {
        expect_tag(host, env, value, ValueType::Number, "Number expected")?;
        Ok(Number { env, value })
    }
}

impl ValueInternal for Number {
    fn construct(env: Env, value: usize) -> Number {
        Number { env, value }
    }
}

} // verus!
