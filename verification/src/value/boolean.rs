use vstd::prelude::*;

use crate::env::Env;
use crate::host::{asked, Call, CallView, Host, Query, Session};
use crate::result::Error;

use super::{answered, expect_tag, judged, unit, wrapped, Value, ValueInternal, ValueType};

verus! {

/// A boolean of the host.
#[derive(Clone, Copy, Debug)]
pub struct Boolean {
    value: usize,
    env: Env,
}

impl Boolean {
    fn new<H: Host>(
        host: &mut Session<H>,
        env: Env,
        value: bool,
    ) -> (result: Result<Boolean, Error>)
        ensures
            asked(
                old(host).trace(),
                final(host).trace(),
                env,
                CallView::Ask(Query::GetBoolean { value }),
            ),
            wrapped(final(host).answer(), env, result),
    {
        let reply = host.call(env, Call::Ask(Query::GetBoolean { value }));
        env.handle_status(reply.status)?;
        Ok(Boolean { value: reply.handle(), env })
    }

    /// The host's `true`.
    pub fn truth<H: Host>(host: &mut Session<H>, env: Env) -> (result: Result<Boolean, Error>)
        ensures
            asked(
                old(host).trace(),
                final(host).trace(),
                env,
                CallView::Ask(Query::GetBoolean { value: true }),
            ),
            wrapped(final(host).answer(), env, result),
    {
        Boolean::new(host, env, true)
    }

    /// The host's `false`.
    pub fn lie<H: Host>(host: &mut Session<H>, env: Env) -> (result: Result<Boolean, Error>)
        ensures
            asked(
                old(host).trace(),
                final(host).trace(),
                env,
                CallView::Ask(Query::GetBoolean { value: false }),
            ),
            wrapped(final(host).answer(), env, result),
    {
        Boolean::new(host, env, false)
    }

    /// The boolean as the host reads it.
    pub fn to_bool<H: Host>(&self, host: &mut Session<H>) -> (result: Result<bool, Error>)
        ensures
            asked(
                old(host).trace(),
                final(host).trace(),
                self.context(),
                CallView::Ask(Query::GetValueBool { value: self.raw() }),
            ),
            answered(final(host).answer(), final(host).answer().flag(), result),
    {
        let reply = host.call(self.env, Call::Ask(Query::GetValueBool { value: self.value }));
        self.env.handle_status(reply.status)?;
        Ok(reply.flag())
    }
}

impl Value for Boolean {
    closed spec fn raw(&self) -> usize {
        self.value
    }

    closed spec fn context(&self) -> Env {
        self.env
    }

    fn as_sys_value(&self) -> usize {
        self.value
    }

    fn env(&self) -> Env {
        self.env
    }

    fn from_sys_checked<H: Host>(
        host: &mut Session<H>,
        env: Env,
        value: usize,
    ) -> (result: Result<Boolean, Error>)
        ensures
            judged(
                final(host).trace(),
                old(host).trace().len() as int,
                final(host).trace().len() as int,
                env,
                Query::TypeOf { value },
                final(host).trace()[old(host).trace().len() as int].reply.tag()
                    == ValueType::Boolean,
                "Boolean expected"@,
                unit(result),
            ),
    {
        expect_tag(host, env, value, ValueType::Boolean, "Boolean expected")?;
        Ok(Boolean { env, value })
    }
}

impl ValueInternal for Boolean {
    fn construct(env: Env, value: usize) -> Boolean {
        Boolean { env, value }
    }
}

} // verus!
