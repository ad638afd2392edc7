use vstd::prelude::*;

use crate::env::Env;
use crate::host::{continues, Exchange, Host, Predicate, Query, Reply, Session};
use crate::result::Error;
use crate::value::{
    check_layout, judged, judged_end, judged_outcome, judged_twice, judged_twice_end,
    judged_twice_outcome, unit, Any, Array, ArrayBuffer, Boolean, Buffer, ElementKind, Layout,
    Null, Number, Object, String, TypedArray, TypedArrayElement, Undefined, Value, ValueInternal,
    ValueType,
};

verus! {

/// The kinds of value that a callback can declare for an argument.
#[derive(Clone, Copy, Debug, PartialEq, Eq, Structural)]
pub enum Variant {
    Any,
    Undefined,
    Null,
    Boolean,
    Number,
    String,
    Object,
    Array,
    ArrayBuffer,
    Buffer,
    TypedArray(ElementKind),
}

/// The layout of a value that has no bytes of its own to show.
pub open spec fn plain_layout(env: Env, value: usize) -> Layout {
    Layout { value, env, data: 0, len: 0, array_buffer: 0, byte_offset: 0 }
}

fn plain(env: Env, value: usize) -> (layout: Layout)
    ensures
        layout == plain_layout(env, value),
{
    Layout { value, env, data: 0, len: 0, array_buffer: 0, byte_offset: 0 }
}

impl Variant {
    /// How many questions the host is asked at most before a value is
    /// accepted as this variant.
    pub open spec fn questions(self) -> nat {
        match self {
            Variant::Any => 0,
            Variant::Undefined
            | Variant::Boolean
            | Variant::Number
            | Variant::String
            | Variant::Object
            | Variant::Array => 1,
            Variant::Null | Variant::ArrayBuffer | Variant::Buffer | Variant::TypedArray(_) => 2,
        }
    }

    /// The type tag of the variants that are told by their tag.
    pub open spec fn tag(self) -> Option<ValueType> {
        match self {
            Variant::Undefined => Some(ValueType::Undefined),
            Variant::Boolean => Some(ValueType::Boolean),
            Variant::Number => Some(ValueType::Number),
            Variant::String => Some(ValueType::String),
            Variant::Object => Some(ValueType::Object),
            _ => None,
        }
    }

    /// The predicate of the variants that are told by a predicate of the
    /// host.
    pub open spec fn predicate(self) -> Option<Predicate> {
        match self {
            Variant::Array => Some(Predicate::Array),
            Variant::ArrayBuffer => Some(Predicate::ArrayBuffer),
            Variant::Buffer => Some(Predicate::Buffer),
            Variant::TypedArray(_) => Some(Predicate::TypedArray),
            _ => None,
        }
    }

    /// The first question about `value`.
    pub open spec fn first(self, value: usize) -> Query {
        if self == Variant::Null {
            Query::GetNull
        } else {
            match self.predicate() {
                Some(predicate) => Query::Test { predicate, value },
                None => Query::TypeOf { value },
            }
        }
    }

    /// Whether the answer to the first question lets the value pass.
    pub open spec fn first_passes(self, reply: Reply) -> bool {
        if self == Variant::Null {
            true
        } else if self.predicate() is Some {
            reply.flag()
        } else {
            Some(reply.tag()) == self.tag()
        }
    }

    /// The second question about `value`, after `reply` to the first.
    pub open spec fn second(self, value: usize, reply: Reply) -> Query {
        match self {
            Variant::Null => Query::StrictEquals { left: value, right: reply.handle() },
            Variant::ArrayBuffer => Query::GetArrayBufferInfo { value },
            Variant::Buffer => Query::GetBufferInfo { value },
            _ => Query::GetTypedArrayInfo { value },
        }
    }

    /// Whether the answer to the second question lets the value pass.
    pub open spec fn second_passes(self, reply: Reply) -> bool {
        match self {
            Variant::Null => reply.flag(),
            Variant::TypedArray(kind) => reply.kind() == kind,
            _ => true,
        }
    }

    /// The message with which a value is refused at the first question.
    pub open spec fn first_message(self) -> Seq<char> {
        match self {
            Variant::Undefined => "Undefined expected"@,
            Variant::Boolean => "Boolean expected"@,
            Variant::Number => "Number expected"@,
            Variant::String => "String expected"@,
            Variant::Object => "Object expected"@,
            Variant::Array => "Array expected"@,
            Variant::ArrayBuffer => "ArrayBuffer expected"@,
            Variant::Buffer => "Buffer expected"@,
            Variant::TypedArray(_) => "TypedArray expected"@,
            _ => Seq::empty(),
        }
    }

    /// The message with which a value is refused at the second question.
    pub open spec fn second_message(self) -> Seq<char> {
        match self {
            Variant::Null => "Null expected"@,
            Variant::TypedArray(kind) => kind.expectation(),
            _ => Seq::empty(),
        }
    }

    /// Where the validation of a value as this variant ends that starts at
    /// `at`.
    pub open spec fn end(self, trace: Seq<Exchange>, at: int) -> int {
        if self.questions() == 0 {
            at
        } else if self.questions() == 1 {
            judged_end(trace, at, self.first_passes(trace[at].reply))
        } else {
            judged_twice_end(
                trace,
                at,
                self.first_passes(trace[at].reply),
                self.second_passes(trace[at + 1].reply),
            )
        }
    }

    /// What comes of the validation of a value as this variant that starts
    /// at `at`.
    pub open spec fn outcome(self, trace: Seq<Exchange>, at: int) -> Result<(), Error> {
        if self.questions() == 0 {
            Ok(())
        } else if self.questions() == 1 {
            judged_outcome(trace, at, self.first_passes(trace[at].reply))
        } else {
            judged_twice_outcome(
                trace,
                at,
                self.first_passes(trace[at].reply),
                self.second_passes(trace[at + 1].reply),
            )
        }
    }

    /// What is known of `value` once it is accepted as this variant, where
    /// `reply` is the last answer of its validation.
    pub open spec fn layout(self, reply: Reply, env: Env, value: usize) -> Layout {
        match self {
            Variant::ArrayBuffer | Variant::Buffer => Layout {
                value,
                env,
                data: reply.data(),
                len: reply.size(),
                array_buffer: 0,
                byte_offset: 0,
            },
            Variant::TypedArray(_) => crate::value::described(reply, env, value),
            _ => plain_layout(env, value),
        }
    }

    /// Validates `value` as this variant, as the wrapper of that variant
    /// does.
    pub fn check<H: Host>(
        &self,
        host: &mut Session<H>,
        env: Env,
        value: usize,
    ) -> (result: Result<Argument, Error>)
        ensures
            continues(old(host).trace(), final(host).trace()),
            validated(
                *self,
                final(host).trace(),
                old(host).trace().len() as int,
                final(host).trace().len() as int,
                env,
                value,
                unit(result),
            ),
            result matches Ok(argument) ==> argument.variant() == *self && argument.layout()
                == self.layout(final(host).answer(), env, value),
    {
        proof {
            reveal(validated);
        }
        match self {
            Variant::Any => {
                proof {
                    assert(host.trace().take(host.trace().len() as int) =~= host.trace());
                }
                Ok(Argument { variant: *self, layout: plain(env, value) })
            },
            Variant::Undefined => {
                let checked = Undefined::from_sys_checked(host, env, value)?;
                Ok(Argument { variant: *self, layout: plain(env, value) })
            },
            Variant::Null => {
                let checked = Null::from_sys_checked(host, env, value)?;
                Ok(Argument { variant: *self, layout: plain(env, value) })
            },
            Variant::Boolean => {
                let checked = Boolean::from_sys_checked(host, env, value)?;
                Ok(Argument { variant: *self, layout: plain(env, value) })
            },
            Variant::Number => {
                let checked = Number::from_sys_checked(host, env, value)?;
                Ok(Argument { variant: *self, layout: plain(env, value) })
            },
            Variant::String => {
                let checked = String::from_sys_checked(host, env, value)?;
                Ok(Argument { variant: *self, layout: plain(env, value) })
            },
            Variant::Object => {
                let checked = Object::from_sys_checked(host, env, value)?;
                Ok(Argument { variant: *self, layout: plain(env, value) })
            },
            Variant::Array => {
                let checked = Array::from_sys_checked(host, env, value)?;
                Ok(Argument { variant: *self, layout: plain(env, value) })
            },
            Variant::ArrayBuffer => {
                let checked = ArrayBuffer::from_sys_checked(host, env, value)?;
                Ok(
                    Argument {
                        variant: *self,
                        layout: Layout {
                            value,
                            env,
                            data: checked.as_ptr(),
                            len: checked.len(),
                            array_buffer: 0,
                            byte_offset: 0,
                        },
                    },
                )
            },
            Variant::Buffer => {
                let checked = Buffer::from_sys_checked(host, env, value)?;
                Ok(
                    Argument {
                        variant: *self,
                        layout: Layout {
                            value,
                            env,
                            data: checked.as_ptr(),
                            len: checked.len(),
                            array_buffer: 0,
                            byte_offset: 0,
                        },
                    },
                )
            },
            Variant::TypedArray(kind) => {
                let layout = check_layout(host, env, value, *kind, kind.name())?;
                Ok(Argument { variant: *self, layout })
            },
        }
    }
}

/// The exchanges of `trace` from `at` to `end` are the validation of `value`
/// as `variant`, and `outcome` is what came of it. Nothing is asked for
/// `Any`; the other variants ask one or two questions, each judged as
/// `judged` says.
#[verifier::opaque]
pub open spec fn validated(
    variant: Variant,
    trace: Seq<Exchange>,
    at: int,
    end: int,
    env: Env,
    value: usize,
    outcome: Result<(), Error>,
) -> bool {
    if variant.questions() == 0 {
        end == at && end <= trace.len() && outcome == Ok::<(), Error>(())
    } else if variant.questions() == 1 {
        judged(
            trace,
            at,
            end,
            env,
            variant.first(value),
            variant.first_passes(trace[at].reply),
            variant.first_message(),
            outcome,
        )
    } else {
        judged_twice(
            trace,
            at,
            end,
            env,
            variant.first(value),
            variant.first_passes(trace[at].reply),
            variant.first_message(),
            variant.second(value, trace[at].reply),
            variant.second_passes(trace[at + 1].reply),
            variant.second_message(),
            outcome,
        )
    }
}

/// A handle that was validated as the variant it is held for.
#[derive(Clone, Copy, Debug)]
pub struct Argument {
    variant: Variant,
    layout: Layout,
}

impl Argument {
    /// The variant as which the handle was validated.
    pub closed spec fn variant(&self) -> Variant {
        self.variant
    }

    /// What is known of the value.
    pub closed spec fn layout(&self) -> Layout {
        self.layout
    }

    /// The variant as which the handle was validated.
    pub fn expected(&self) -> (variant: Variant)
        ensures
            variant == self.variant(),
    {
        self.variant
    }

    /// The validated handle.
    pub fn as_sys_value(&self) -> (value: usize)
        ensures
            value == self.layout().value,
    {
        self.layout.value
    }

    /// The argument as `Any`, if it was validated as one.
    pub fn to_any(&self) -> (wrapper: Option<Any>)
        ensures
            wrapper is Some == (self.variant() == Variant::Any),
            wrapper matches Some(value) ==> value.raw() == self.layout().value && value.context()
                == self.layout().env,
    {
        match self.variant {
            Variant::Any => Some(Any::with_value(self.layout.env, self.layout.value)),
            _ => None,
        }
    }

    /// The argument as `Undefined`, if it was validated as one.
    pub fn to_undefined(&self) -> (wrapper: Option<Undefined>)
        ensures
            wrapper is Some == (self.variant() == Variant::Undefined),
            wrapper matches Some(value) ==> value.raw() == self.layout().value && value.context()
                == self.layout().env,
    {
        match self.variant {
            Variant::Undefined => Some(Undefined::construct(self.layout.env, self.layout.value)),
            _ => None,
        }
    }

    /// The argument as `Null`, if it was validated as one.
    pub fn to_null(&self) -> (wrapper: Option<Null>)
        ensures
            wrapper is Some == (self.variant() == Variant::Null),
            wrapper matches Some(value) ==> value.raw() == self.layout().value && value.context()
                == self.layout().env,
    {
        match self.variant {
            Variant::Null => Some(Null::construct(self.layout.env, self.layout.value)),
            _ => None,
        }
    }

    /// The argument as `Boolean`, if it was validated as one.
    pub fn to_boolean(&self) -> (wrapper: Option<Boolean>)
        ensures
            wrapper is Some == (self.variant() == Variant::Boolean),
            wrapper matches Some(value) ==> value.raw() == self.layout().value && value.context()
                == self.layout().env,
    {
        match self.variant {
            Variant::Boolean => Some(Boolean::construct(self.layout.env, self.layout.value)),
            _ => None,
        }
    }

    /// The argument as `Number`, if it was validated as one.
    pub fn to_number(&self) -> (wrapper: Option<Number>)
        ensures
            wrapper is Some == (self.variant() == Variant::Number),
            wrapper matches Some(value) ==> value.raw() == self.layout().value && value.context()
                == self.layout().env,
    {
        match self.variant {
            Variant::Number => Some(Number::construct(self.layout.env, self.layout.value)),
            _ => None,
        }
    }

    /// The argument as `String`, if it was validated as one.
    pub fn to_string(&self) -> (wrapper: Option<String>)
        ensures
            wrapper is Some == (self.variant() == Variant::String),
            wrapper matches Some(value) ==> value.raw() == self.layout().value && value.context()
                == self.layout().env,
    {
        match self.variant {
            Variant::String => Some(String::construct(self.layout.env, self.layout.value)),
            _ => None,
        }
    }

    /// The argument as `Object`, if it was validated as one.
    pub fn to_object(&self) -> (wrapper: Option<Object>)
        ensures
            wrapper is Some == (self.variant() == Variant::Object),
            wrapper matches Some(value) ==> value.raw() == self.layout().value && value.context()
                == self.layout().env,
    {
        match self.variant {
            Variant::Object => Some(Object::construct(self.layout.env, self.layout.value)),
            _ => None,
        }
    }

    /// The argument as `Array`, if it was validated as one.
    pub fn to_array(&self) -> (wrapper: Option<Array>)
        ensures
            wrapper is Some == (self.variant() == Variant::Array),
            wrapper matches Some(value) ==> value.raw() == self.layout().value && value.context()
                == self.layout().env,
    {
        match self.variant {
            Variant::Array => Some(Array::construct(self.layout.env, self.layout.value)),
            _ => None,
        }
    }

    /// The argument as `ArrayBuffer`, if it was validated as one.
    pub fn to_array_buffer(&self) -> (wrapper: Option<ArrayBuffer>)
        ensures
            wrapper is Some == (self.variant() == Variant::ArrayBuffer),
            wrapper matches Some(value) ==> {
                &&& value.raw() == self.layout().value
                &&& value.context() == self.layout().env
                &&& value.start() == self.layout().data
                &&& value.size() == self.layout().len
            },
    {
        match self.variant {
            Variant::ArrayBuffer => Some(
                ArrayBuffer::assemble(
                    self.layout.env,
                    self.layout.value,
                    self.layout.data,
                    self.layout.len,
                ),
            ),
            _ => None,
        }
    }

    /// The argument as `Buffer`, if it was validated as one.
    pub fn to_buffer(&self) -> (wrapper: Option<Buffer>)
        ensures
            wrapper is Some == (self.variant() == Variant::Buffer),
            wrapper matches Some(value) ==> {
                &&& value.raw() == self.layout().value
                &&& value.context() == self.layout().env
                &&& value.start() == self.layout().data
                &&& value.size() == self.layout().len
            },
    {
        match self.variant {
            Variant::Buffer => Some(
                Buffer::assemble(
                    self.layout.env,
                    self.layout.value,
                    self.layout.data,
                    self.layout.len,
                ),
            ),
            _ => None,
        }
    }

    /// The argument as a typed array with elements of the kind of `T`, if
    /// it was validated as one.
    pub fn to_typed_array<T: TypedArrayElement>(&self) -> (wrapper: Option<TypedArray<T>>)
        ensures
            wrapper is Some == (self.variant() == Variant::TypedArray(T::kind())),
            wrapper matches Some(value) ==> value.layout() == self.layout(),
    {
        match self.variant {
            Variant::TypedArray(kind) => if kind == T::array_type() {
                Some(TypedArray::with_layout(self.layout))
            } else {
                None
            },
            _ => None,
        }
    }
}

} // verus!
