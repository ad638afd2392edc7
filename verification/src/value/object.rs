use vstd::prelude::*;

use crate::env::Env;
use crate::host::{
    asked, asks, continues, lemma_asked_continues, lemma_continues_trans, Call, CallView, Exchange,
    Host, Query, Reply, Session,
};
use crate::result::Error;

use super::{
    answered, expect_tag, judged, unit, wrapped, Any, Array, String, Value, ValueInternal,
    ValueType,
};

verus! {

/// An object of the host.
#[derive(Clone, Copy, Debug)]
pub struct Object {
    value: usize,
    env: Env,
}

/// The exchanges of `trace` from `at` to `end` are an access by name: the
/// host is asked for a new string with `name`; unless that fails, it is
/// asked `query`, which holds that string as its key.
pub open spec fn named(
    trace: Seq<Exchange>,
    at: int,
    end: int,
    env: Env,
    name: Seq<char>,
    query: Query,
) -> bool {
    &&& asks(trace, at, env, CallView::CreateStringUtf8(name))
    &&& end <= trace.len()
    &&& if trace[at].reply.status.succeeded() {
        &&& end == at + 2
        &&& asks(trace, at + 1, env, CallView::Ask(query))
    } else {
        end == at + 1
    }
}

/// The answer that decides an access by name: that to the making of the key
/// where it failed, else that to the access itself.
pub open spec fn named_reply(trace: Seq<Exchange>, at: int) -> Reply {
    if trace[at].reply.status.succeeded() {
        trace[at + 1].reply
    } else {
        trace[at].reply
    }
}

impl Object {
    /// A new empty object.
    pub fn new<H: Host>(host: &mut Session<H>, env: Env) -> (result: Result<Object, Error>)
        ensures
            asked(old(host).trace(), final(host).trace(), env, CallView::Ask(Query::CreateObject)),
            wrapped(final(host).answer(), env, result),
    {
        let reply = host.call(env, Call::Ask(Query::CreateObject));
        env.handle_status(reply.status)?;
        Ok(Object { value: reply.handle(), env })
    }

    /// The object's prototype.
    pub fn prototype<H: Host>(&self, host: &mut Session<H>) -> (result: Result<Any, Error>)
        ensures
            asked(
                old(host).trace(),
                final(host).trace(),
                self.context(),
                CallView::Ask(Query::GetPrototype { object: self.raw() }),
            ),
            wrapped(final(host).answer(), self.context(), result),
    {
        let reply = host.call(self.env, Call::Ask(Query::GetPrototype { object: self.value }));
        self.env.handle_status(reply.status)?;
        Ok(Any::with_value(self.env, reply.handle()))
    }

    /// The names of the object's enumerable properties.
    pub fn property_names<H: Host>(&self, host: &mut Session<H>) -> (result: Result<Array, Error>)
        ensures
            asked(
                old(host).trace(),
                final(host).trace(),
                self.context(),
                CallView::Ask(Query::GetPropertyNames { object: self.raw() }),
            ),
            wrapped(final(host).answer(), self.context(), result),
    {
        let reply = host.call(self.env, Call::Ask(Query::GetPropertyNames { object: self.value }));
        self.env.handle_status(reply.status)?;
        Ok(Array::construct(self.env, reply.handle()))
    }

    /// Sets the property `key` to `value`.
    pub fn set_property<H: Host, T: Value, U: Value>(
        &self,
        host: &mut Session<H>,
        key: &T,
        value: &U,
    ) -> (result: Result<(), Error>)
        ensures
            asked(
                old(host).trace(),
                final(host).trace(),
                self.context(),
                CallView::Ask(
                    Query::SetProperty { object: self.raw(), key: key.raw(), value: value.raw() },
                ),
            ),
            answered(final(host).answer(), (), result),
    {
        let reply = host.call(
            self.env,
            Call::Ask(
                Query::SetProperty {
                    object: self.value,
                    key: key.as_sys_value(),
                    value: value.as_sys_value(),
                },
            ),
        );
        self.env.handle_status(reply.status)
    }

    /// The property `key`.
    pub fn get_property<H: Host, T: Value>(
        &self,
        host: &mut Session<H>,
        key: &T,
    ) -> (result: Result<Any, Error>)
        ensures
            asked(
                old(host).trace(),
                final(host).trace(),
                self.context(),
                CallView::Ask(Query::GetProperty { object: self.raw(), key: key.raw() }),
            ),
            wrapped(final(host).answer(), self.context(), result),
    {
        let reply = host.call(
            self.env,
            Call::Ask(Query::GetProperty { object: self.value, key: key.as_sys_value() }),
        );
        self.env.handle_status(reply.status)?;
        Ok(Any::with_value(self.env, reply.handle()))
    }

    /// Whether the object or its prototype chain has the property `key`.
    pub fn has_property<H: Host, T: Value>(
        &self,
        host: &mut Session<H>,
        key: &T,
    ) -> (result: Result<bool, Error>)
        ensures
            asked(
                old(host).trace(),
                final(host).trace(),
                self.context(),
                CallView::Ask(Query::HasProperty { object: self.raw(), key: key.raw() }),
            ),
            answered(final(host).answer(), final(host).answer().flag(), result),
    {
        let reply = host.call(
            self.env,
            Call::Ask(Query::HasProperty { object: self.value, key: key.as_sys_value() }),
        );
        self.env.handle_status(reply.status)?;
        Ok(reply.flag())
    }

    /// Whether the object itself has the property `key`.
    pub fn has_own_property<H: Host, T: Value>(
        &self,
        host: &mut Session<H>,
        key: &T,
    ) -> (result: Result<bool, Error>)
        ensures
            asked(
                old(host).trace(),
                final(host).trace(),
                self.context(),
                CallView::Ask(Query::HasOwnProperty { object: self.raw(), key: key.raw() }),
            ),
            answered(final(host).answer(), final(host).answer().flag(), result),
    {
        let reply = host.call(
            self.env,
            Call::Ask(Query::HasOwnProperty { object: self.value, key: key.as_sys_value() }),
        );
        self.env.handle_status(reply.status)?;
        Ok(reply.flag())
    }

    /// Deletes the property `key`; the answer says whether it is gone.
    pub fn del_property<H: Host, T: Value>(
        &self,
        host: &mut Session<H>,
        key: &T,
    ) -> (result: Result<bool, Error>)
        ensures
            asked(
                old(host).trace(),
                final(host).trace(),
                self.context(),
                CallView::Ask(Query::DeleteProperty { object: self.raw(), key: key.raw() }),
            ),
            answered(final(host).answer(), final(host).answer().flag(), result),
    {
        let reply = host.call(
            self.env,
            Call::Ask(Query::DeleteProperty { object: self.value, key: key.as_sys_value() }),
        );
        self.env.handle_status(reply.status)?;
        Ok(reply.flag())
    }

    /// Sets the property called `name` to `value`. The key is a new host
    /// string, made for this call.
    pub fn set_named_property<H: Host, T: Value>(
        &self,
        host: &mut Session<H>,
        name: &str,
        value: &T,
    ) -> (result: Result<(), Error>)
        ensures
            continues(old(host).trace(), final(host).trace()),
            named(
                final(host).trace(),
                old(host).trace().len() as int,
                final(host).trace().len() as int,
                self.context(),
                name@,
                Query::SetProperty {
                    object: self.raw(),
                    key: final(host).trace()[old(host).trace().len() as int].reply.handle(),
                    value: value.raw(),
                },
            ),
            answered(named_reply(final(host).trace(), old(host).trace().len() as int), (), result),
    {
        let ghost before = host.trace();
        let made = String::from_str(host, self.env, name);
        let ghost middle = host.trace();
        proof {
            lemma_asked_continues(before, middle, self.env, CallView::CreateStringUtf8(name@));
        }
        let key = made?;
        let result = self.set_property(host, &key, value);
        proof {
            lemma_asked_continues(
                middle,
                host.trace(),
                self.env,
                host.trace().last().call,
            );
            lemma_continues_trans(before, middle, host.trace());
        }
        result
    }

    /// The property called `name`. The key is a new host string, made for
    /// this call.
    pub fn get_named_property<H: Host>(
        &self,
        host: &mut Session<H>,
        name: &str,
    ) -> (result: Result<Any, Error>)
        ensures
            continues(old(host).trace(), final(host).trace()),
            named(
                final(host).trace(),
                old(host).trace().len() as int,
                final(host).trace().len() as int,
                self.context(),
                name@,
                Query::GetProperty {
                    object: self.raw(),
                    key: final(host).trace()[old(host).trace().len() as int].reply.handle(),
                },
            ),
            wrapped(
                named_reply(final(host).trace(), old(host).trace().len() as int),
                self.context(),
                result,
            ),
    {
        let ghost before = host.trace();
        let made = String::from_str(host, self.env, name);
        let ghost middle = host.trace();
        proof {
            lemma_asked_continues(before, middle, self.env, CallView::CreateStringUtf8(name@));
        }
        let key = made?;
        let result = self.get_property(host, &key);
        proof {
            lemma_asked_continues(
                middle,
                host.trace(),
                self.env,
                host.trace().last().call,
            );
            lemma_continues_trans(before, middle, host.trace());
        }
        result
    }

    /// Whether there is a property called `name`. The key is a new host
    /// string, made for this call.
    pub fn has_named_property<H: Host>(
        &self,
        host: &mut Session<H>,
        name: &str,
    ) -> (result: Result<bool, Error>)
        ensures
            continues(old(host).trace(), final(host).trace()),
            named(
                final(host).trace(),
                old(host).trace().len() as int,
                final(host).trace().len() as int,
                self.context(),
                name@,
                Query::HasProperty {
                    object: self.raw(),
                    key: final(host).trace()[old(host).trace().len() as int].reply.handle(),
                },
            ),
            answered(
                named_reply(final(host).trace(), old(host).trace().len() as int),
                named_reply(final(host).trace(), old(host).trace().len() as int).flag(),
                result,
            ),
    {
        let ghost before = host.trace();
        let made = String::from_str(host, self.env, name);
        let ghost middle = host.trace();
        proof {
            lemma_asked_continues(before, middle, self.env, CallView::CreateStringUtf8(name@));
        }
        let key = made?;
        let result = self.has_property(host, &key);
        proof {
            lemma_asked_continues(
                middle,
                host.trace(),
                self.env,
                host.trace().last().call,
            );
            lemma_continues_trans(before, middle, host.trace());
        }
        result
    }

    /// Deletes the property called `name`. The key is a new host string,
    /// made for this call.
    pub fn del_named_property<H: Host>(
        &self,
        host: &mut Session<H>,
        name: &str,
    ) -> (result: Result<bool, Error>)
        ensures
            continues(old(host).trace(), final(host).trace()),
            named(
                final(host).trace(),
                old(host).trace().len() as int,
                final(host).trace().len() as int,
                self.context(),
                name@,
                Query::DeleteProperty {
                    object: self.raw(),
                    key: final(host).trace()[old(host).trace().len() as int].reply.handle(),
                },
            ),
            answered(
                named_reply(final(host).trace(), old(host).trace().len() as int),
                named_reply(final(host).trace(), old(host).trace().len() as int).flag(),
                result,
            ),
    {
        let ghost before = host.trace();
        let made = String::from_str(host, self.env, name);
        let ghost middle = host.trace();
        proof {
            lemma_asked_continues(before, middle, self.env, CallView::CreateStringUtf8(name@));
        }
        let key = made?;
        let result = self.del_property(host, &key);
        proof {
            lemma_asked_continues(
                middle,
                host.trace(),
                self.env,
                host.trace().last().call,
            );
            lemma_continues_trans(before, middle, host.trace());
        }
        result
    }

    /// Sets the element at `index` to `value`.
    pub fn set_element<H: Host, T: Value>(
        &self,
        host: &mut Session<H>,
        index: u32,
        value: &T,
    ) -> (result: Result<(), Error>)
        ensures
            asked(
                old(host).trace(),
                final(host).trace(),
                self.context(),
                CallView::Ask(Query::SetElement { object: self.raw(), index, value: value.raw() }),
            ),
            answered(final(host).answer(), (), result),
    {
        let reply = host.call(
            self.env,
            Call::Ask(Query::SetElement { object: self.value, index, value: value.as_sys_value() }),
        );
        self.env.handle_status(reply.status)
    }

    /// The element at `index`.
    pub fn get_element<H: Host>(
        &self,
        host: &mut Session<H>,
        index: u32,
    ) -> (result: Result<Any, Error>)
        ensures
            asked(
                old(host).trace(),
                final(host).trace(),
                self.context(),
                CallView::Ask(Query::GetElement { object: self.raw(), index }),
            ),
            wrapped(final(host).answer(), self.context(), result),
    {
        let reply = host.call(self.env, Call::Ask(Query::GetElement { object: self.value, index }));
        self.env.handle_status(reply.status)?;
        Ok(Any::with_value(self.env, reply.handle()))
    }

    /// Whether there is an element at `index`.
    pub fn has_element<H: Host>(
        &self,
        host: &mut Session<H>,
        index: u32,
    ) -> (result: Result<bool, Error>)
        ensures
            asked(
                old(host).trace(),
                final(host).trace(),
                self.context(),
                CallView::Ask(Query::HasElement { object: self.raw(), index }),
            ),
            answered(final(host).answer(), final(host).answer().flag(), result),
    {
        let reply = host.call(self.env, Call::Ask(Query::HasElement { object: self.value, index }));
        self.env.handle_status(reply.status)?;
        Ok(reply.flag())
    }

    /// Deletes the element at `index`; the answer says whether it is gone.
    pub fn del_element<H: Host>(
        &self,
        host: &mut Session<H>,
        index: u32,
    ) -> (result: Result<bool, Error>)
        ensures
            asked(
                old(host).trace(),
                final(host).trace(),
                self.context(),
                CallView::Ask(Query::DeleteElement { object: self.raw(), index }),
            ),
            answered(final(host).answer(), final(host).answer().flag(), result),
    {
        let reply = host.call(
            self.env,
            Call::Ask(Query::DeleteElement { object: self.value, index }),
        );
        self.env.handle_status(reply.status)?;
        Ok(reply.flag())
    }
}

impl Value for Object {
    closed spec fn raw(&self) -> usize {
        self.value
    }

    closed spec fn context(&self) -> Env {
        self.env
    }

    fn as_sys_value(&self) -> usize {
        self.value
    }

    fn env(&self) -> Env {
        self.env
    }

    fn from_sys_checked<H: Host>(
        host: &mut Session<H>,
        env: Env,
        value: usize,
    ) -> (result: Result<Object, Error>)
        ensures
            judged(
                final(host).trace(),
                old(host).trace().len() as int,
                final(host).trace().len() as int,
                env,
                Query::TypeOf { value },
                final(host).trace()[old(host).trace().len() as int].reply.tag()
                    == ValueType::Object,
                "Object expected"@,
                unit(result),
            ),
    {
        expect_tag(host, env, value, ValueType::Object, "Object expected")?;
        Ok(Object { env, value })
    }
}

impl ValueInternal for Object {
    fn construct(env: Env, value: usize) -> Object {
        Object { env, value }
    }
}

} // verus!
