use vstd::prelude::*;

use crate::env::Env;
use crate::host::{
    asked, continues, lemma_asked_continues, lemma_continues_trans, Call, CallView, Host, Query,
    Session,
};
use crate::result::Error;

use super::{judged_twice, refuse, unit, wrapped, Value, ValueInternal};

verus! {

/// The host's `null`.
#[derive(Clone, Copy, Debug)]
pub struct Null {
    value: usize,
    env: Env,
}

impl Null {
    /// The host's `null`.
    pub fn new<H: Host>(host: &mut Session<H>, env: Env) -> (result: Result<Null, Error>)
        ensures
            asked(old(host).trace(), final(host).trace(), env, CallView::Ask(Query::GetNull)),
            wrapped(final(host).answer(), env, result),
    {
        let reply = host.call(env, Call::Ask(Query::GetNull));
        env.handle_status(reply.status)?;
        Ok(Null { value: reply.handle(), env })
    }
}

impl Value for Null {
    closed spec fn raw(&self) -> usize {
        self.value
    }

    closed spec fn context(&self) -> Env {
        self.env
    }

    fn as_sys_value(&self) -> usize {
        self.value
    }

    fn env(&self) -> Env {
        self.env
    }

    /// There is one `null`, so no tag is looked at: the host is asked for
    /// its `null` and whether `value` is strictly equal to it.
    fn from_sys_checked<H: Host>(
        host: &mut Session<H>,
        env: Env,
        value: usize,
    ) -> (result: Result<Null, Error>)
        ensures
            judged_twice(
                final(host).trace(),
                old(host).trace().len() as int,
                final(host).trace().len() as int,
                env,
                Query::GetNull,
                true,
                Seq::empty(),
                Query::StrictEquals {
                    left: value,
                    right: final(host).trace()[old(host).trace().len() as int].reply.handle(),
                },
                final(host).trace()[old(host).trace().len() as int + 1].reply.flag(),
                "Null expected"@,
                unit(result),
            ),
    {
        let ghost before = host.trace();
        let made = host.call(env, Call::Ask(Query::GetNull));
        let ghost middle = host.trace();
        proof {
            lemma_asked_continues(before, middle, env, CallView::Ask(Query::GetNull));
        }
        env.handle_status(made.status)?;
        let null = made.handle();
        let same = host.call(env, Call::Ask(Query::StrictEquals { left: value, right: null }));
        let ghost asked_same = host.trace();
        proof {
            lemma_asked_continues(
                middle,
                asked_same,
                env,
                CallView::Ask(Query::StrictEquals { left: value, right: null }),
            );
            lemma_continues_trans(before, middle, asked_same);
        }
        env.handle_status(same.status)?;
        if !same.flag() {
            let error = refuse(host, env, "Null expected", Ghost(before));
            proof {
                lemma_continues_trans(middle, asked_same, host.trace());
            }
            return Err(error);
        }
        Ok(Null { env, value })
    }
}

impl ValueInternal for Null {
    fn construct(env: Env, value: usize) -> Null {
        Null { env, value }
    }
}

} // verus!
