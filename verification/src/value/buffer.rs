use vstd::prelude::*;

use crate::env::Env;
use crate::host::{
    asked, continues, lemma_asked_continues, lemma_continues_trans, Call, CallView, Host,
    Predicate, Query, Session,
};
use crate::result::Error;

use super::{expect, judged_twice, unit, AsObject, Value};

verus! {

/// A byte buffer of the host.
///
/// The bytes stay with the host. The wrapper knows where they are and how
/// many, for as long as the call lasts in which it was made.
#[derive(Debug)]
pub struct Buffer {
    value: usize,
    data: usize,
    len: usize,
    env: Env,
}

impl Buffer {
    /// Where the bytes are.
    pub closed spec fn start(&self) -> usize {
        self.data
    }

    /// How many bytes there are.
    pub closed spec fn size(&self) -> usize {
        self.len
    }

    /// A new buffer of `len` bytes, which the host allocates.
    pub fn new<H: Host>(
        host: &mut Session<H>,
        env: Env,
        len: usize,
    ) -> (result: Result<Buffer, Error>)
        ensures
            asked(
                old(host).trace(),
                final(host).trace(),
                env,
                CallView::Ask(Query::CreateBuffer { len }),
            ),
            match result {
                Ok(buffer) => {
                    &&& final(host).answer().status.succeeded()
                    &&& buffer.raw() == final(host).answer().handle()
                    &&& buffer.context() == env
                    &&& buffer.start() == final(host).answer().data()
                    &&& buffer.size() == len
                },
                Err(error) => !final(host).answer().status.succeeded() && error == Error::failure(
                    final(host).answer().status,
                ),
            },
    {
        let reply = host.call(env, Call::Ask(Query::CreateBuffer { len }));
        env.handle_status(reply.status)?;
        Ok(Buffer { value: reply.handle(), data: reply.data(), len, env })
    }

    /// Wraps a buffer of which the host has just said where its bytes are.
    pub(crate) fn assemble(env: Env, value: usize, data: usize, len: usize) -> (buffer: Buffer)
        ensures
            buffer.raw() == value,
            buffer.context() == env,
            buffer.start() == data,
            buffer.size() == len,
    {
        Buffer { value, data, len, env }
    }

    /// The address of the first byte.
    pub fn as_ptr(&self) -> (data: usize)
        ensures
            data == self.start(),
    {
        self.data
    }

    pub fn len(&self) -> (len: usize)
        ensures
            len == self.size(),
    {
        self.len
    }

    pub fn is_empty(&self) -> (empty: bool)
        ensures
            empty == (self.size() == 0),
    {
        self.len == 0
    }
}

impl Value for Buffer {
    closed spec fn raw(&self) -> usize {
        self.value
    }

    closed spec fn context(&self) -> Env {
        self.env
    }

    fn as_sys_value(&self) -> usize {
        self.value
    }

    fn env(&self) -> Env {
        self.env
    }

    /// The host is asked whether `value` is such a buffer and then where its
    /// bytes are.
    fn from_sys_checked<H: Host>(
        host: &mut Session<H>,
        env: Env,
        value: usize,
    ) -> (result: Result<Buffer, Error>)
        ensures
            judged_twice(
                final(host).trace(),
                old(host).trace().len() as int,
                final(host).trace().len() as int,
                env,
                Query::Test { predicate: Predicate::Buffer, value },
                final(host).trace()[old(host).trace().len() as int].reply.flag(),
                "Buffer expected"@,
                Query::GetBufferInfo { value },
                true,
                Seq::empty(),
                unit(result),
            ),
            result matches Ok(buffer) ==> buffer.start() == final(host).answer().data()
                && buffer.size() == final(host).answer().size(),
    {
        let ghost before = host.trace();
        expect(host, env, value, Predicate::Buffer, "Buffer expected")?;
        let ghost middle = host.trace();
        let reply = host.call(env, Call::Ask(Query::GetBufferInfo { value }));
        proof {
            lemma_asked_continues(
                middle,
                host.trace(),
                env,
                CallView::Ask(Query::GetBufferInfo { value }),
            );
            lemma_continues_trans(before, middle, host.trace());
        }
        env.handle_status(reply.status)?;
        Ok(Buffer { env, value, data: reply.data(), len: reply.size() })
    }
}

impl AsObject for Buffer {
}

} // verus!
