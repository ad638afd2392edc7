use vstd::prelude::*;

use crate::env::Env;
use crate::host::{asked, Call, CallView, Host, Query, Session};
use crate::result::Error;

use super::{answered, expect_tag, judged, unit, wrapped, Value, ValueInternal, ValueType};

verus! {

/// The host's `undefined`.
#[derive(Clone, Copy, Debug)]
pub struct Undefined {
    value: usize,
    env: Env,
}

impl Undefined {
    /// The host's `undefined`.
    pub fn new<H: Host>(host: &mut Session<H>, env: Env) -> (result: Result<Undefined, Error>)
        ensures
            asked(old(host).trace(), final(host).trace(), env, CallView::Ask(Query::GetUndefined)),
            wrapped(final(host).answer(), env, result),
    {
        let reply = host.call(env, Call::Ask(Query::GetUndefined));
        env.handle_status(reply.status)?;
        Ok(Undefined { value: reply.handle(), env })
    }
}

impl Value for Undefined {
    closed spec fn raw(&self) -> usize {
        self.value
    }

    closed spec fn context(&self) -> Env {
        self.env
    }

    fn as_sys_value(&self) -> usize {
        self.value
    }

    fn env(&self) -> Env {
        self.env
    }

    fn from_sys_checked<H: Host>(
        host: &mut Session<H>,
        env: Env,
        value: usize,
    ) -> (result: Result<Undefined, Error>)
        ensures
            judged(
                final(host).trace(),
                old(host).trace().len() as int,
                final(host).trace().len() as int,
                env,
                Query::TypeOf { value },
                final(host).trace()[old(host).trace().len() as int].reply.tag()
                    == ValueType::Undefined,
                "Undefined expected"@,
                unit(result),
            ),
    {
        expect_tag(host, env, value, ValueType::Undefined, "Undefined expected")?;
        Ok(Undefined { env, value })
    }
}

impl ValueInternal for Undefined {
    fn construct(env: Env, value: usize) -> Undefined {
        Undefined { env, value }
    }
}

} // verus!
