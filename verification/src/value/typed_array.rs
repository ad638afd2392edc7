use vstd::prelude::*;
use vstd::string::*;

use core::marker::PhantomData;

use crate::env::Env;
use crate::host::{
    asked, continues, lemma_asked_continues, lemma_continues_trans, Call, CallView, Exchange,
    Host, Predicate, Query, Reply, Session,
};
use crate::result::{Error, ErrorKind};

use super::{expect, judged_twice, refuse, unit, unusable, ArrayBuffer, AsObject, Value};

verus! {

/// The element kinds of the host's typed arrays.
#[derive(Debug, Clone, Copy, Eq, PartialEq, Structural)]
pub enum ElementKind {
    /// Signed 8-bit integers.
    Int8,
    /// Unsigned 8-bit integers.
    UInt8,
    /// Unsigned 8-bit integers, clamped on writing.
    UInt8Clamped,
    /// Signed 16-bit integers.
    Int16,
    /// Unsigned 16-bit integers.
    UInt16,
    /// Signed 32-bit integers.
    Int32,
    /// Unsigned 32-bit integers.
    UInt32,
    /// 32-bit floats.
    Float32,
    /// 64-bit floats.
    Float64,
    /// Signed 64-bit integers.
    BigInt64,
    /// Unsigned 64-bit integers.
    BigUInt64,
}

impl ElementKind {
    /// The name of the typed array with elements of this kind.
    pub open spec fn spec_name(self) -> Seq<char> {
        match self {
            ElementKind::Int8 => "Int8Array"@,
            ElementKind::UInt8 => "UInt8Array"@,
            ElementKind::UInt8Clamped => "UInt8ClampedArray"@,
            ElementKind::Int16 => "Int16Array"@,
            ElementKind::UInt16 => "UInt16Array"@,
            ElementKind::Int32 => "Int32Array"@,
            ElementKind::UInt32 => "UInt32Array"@,
            ElementKind::Float32 => "Float32Array"@,
            ElementKind::Float64 => "Float64Array"@,
            ElementKind::BigInt64 => "BigInt64Array"@,
            ElementKind::BigUInt64 => "BigUInt64Array"@,
        }
    }

    /// The name of the typed array with elements of this kind.
    pub fn name(self) -> (name: &'static str)
        ensures
            name@ == self.spec_name(),
    {
        match self {
            ElementKind::Int8 => "Int8Array",
            ElementKind::UInt8 => "UInt8Array",
            ElementKind::UInt8Clamped => "UInt8ClampedArray",
            ElementKind::Int16 => "Int16Array",
            ElementKind::UInt16 => "UInt16Array",
            ElementKind::Int32 => "Int32Array",
            ElementKind::UInt32 => "UInt32Array",
            ElementKind::Float32 => "Float32Array",
            ElementKind::Float64 => "Float64Array",
            ElementKind::BigInt64 => "BigInt64Array",
            ElementKind::BigUInt64 => "BigUInt64Array",
        }
    }

    /// The message with which a value is refused that is no typed array with
    /// elements of this kind.
    pub open spec fn expectation(self) -> Seq<char> {
        self.spec_name() + " expected"@
    }
}

/// What a type says of the elements of its typed array.
pub trait TypedArrayElement {
    /// The element kind that the type stands for.
    spec fn kind() -> ElementKind;

    fn array_type() -> (kind: ElementKind)
        ensures
            kind == Self::kind(),
    ;

    fn array_type_name() -> (name: &'static str)
        ensures
            name@ == Self::kind().spec_name(),
    ;
}

/// What a typed array is known by: its handle and context, where its
/// elements are and how many, the buffer under it and the byte offset into
/// that buffer.
#[derive(Clone, Copy, Debug)]
pub struct Layout {
    pub value: usize,
    pub env: Env,
    pub data: usize,
    pub len: usize,
    pub array_buffer: usize,
    pub byte_offset: usize,
}

/// A numeric view of the host over a buffer, with elements of the kind that
/// `T` stands for.
#[derive(Debug)]
pub struct TypedArray<T: TypedArrayElement> {
    layout: Layout,
    element: PhantomData<T>,
}

/// The exchanges of `trace` from `at` to `end` are the validation of `value`
/// as a typed array with elements of `kind`: the host is asked whether the
/// value is a typed array at all, then for its element kind, which has to be
/// `kind`.
pub open spec fn typed_checked(
    trace: Seq<Exchange>,
    at: int,
    end: int,
    env: Env,
    value: usize,
    kind: ElementKind,
    outcome: Result<(), Error>,
) -> bool {
    judged_twice(
        trace,
        at,
        end,
        env,
        Query::Test { predicate: Predicate::TypedArray, value },
        trace[at].reply.flag(),
        "TypedArray expected"@,
        Query::GetTypedArrayInfo { value },
        trace[at + 1].reply.kind() == kind,
        kind.expectation(),
        outcome,
    )
}

/// The layout that the host's answer describes for the typed array `value`.
pub open spec fn described(reply: Reply, env: Env, value: usize) -> Layout {
    Layout {
        value,
        env,
        data: reply.data(),
        len: reply.size(),
        array_buffer: reply.buffer(),
        byte_offset: reply.offset(),
    }
}

/// Validates `value` as a typed array with elements of `kind`, whose array
/// is called `name`.
pub(crate) fn check_layout<H: Host>(
    host: &mut Session<H>,
    env: Env,
    value: usize,
    kind: ElementKind,
    name: &str,
) -> (result: Result<Layout, Error>)
    requires
        name@ == kind.spec_name(),
    ensures
        continues(old(host).trace(), final(host).trace()),
        typed_checked(
            final(host).trace(),
            old(host).trace().len() as int,
            final(host).trace().len() as int,
            env,
            value,
            kind,
            unit(result),
        ),
        result matches Ok(layout) ==> layout == described(final(host).answer(), env, value),
{
    let ghost before = host.trace();
    expect(host, env, value, Predicate::TypedArray, "TypedArray expected")?;
    let ghost middle = host.trace();
    let reply = host.call(env, Call::Ask(Query::GetTypedArrayInfo { value }));
    let ghost informed = host.trace();
    proof {
        lemma_asked_continues(
            middle,
            informed,
            env,
            CallView::Ask(Query::GetTypedArrayInfo { value }),
        );
        lemma_continues_trans(before, middle, informed);
    }
    env.handle_status(reply.status)?;
    if reply.kind() != kind {
        let mut message = name.to_owned();
        message.append(" expected");
        let error = refuse(host, env, message.as_str(), Ghost(before));
        proof {
            lemma_continues_trans(middle, informed, host.trace());
        }
        return Err(error);
    }
    Ok(
        Layout {
            value,
            env,
            data: reply.data(),
            len: reply.size(),
            array_buffer: reply.buffer(),
            byte_offset: reply.offset(),
        },
    )
}

impl<T: TypedArrayElement> TypedArray<T> {
    /// What the array is known by.
    pub closed spec fn layout(&self) -> Layout {
        self.layout
    }

    /// A new typed array of `count_elements` elements over `array_buffer`,
    /// from `byte_offset` on: its first element is the byte of the buffer at
    /// that offset. The buffer is not validated again; the host refuses what
    /// is out of its bounds. An offset that leads past the last address is
    /// refused here, before the host is asked.
    pub fn from_array_buffer<H: Host>(
        host: &mut Session<H>,
        array_buffer: ArrayBuffer,
        byte_offset: usize,
        count_elements: usize,
    ) -> (result: Result<TypedArray<T>, Error>)
        ensures
            if array_buffer.start() + byte_offset > usize::MAX {
                &&& final(host).trace() == old(host).trace()
                &&& result == Err::<TypedArray<T>, Error>(unusable())
            } else {
                &&& asked(
                    old(host).trace(),
                    final(host).trace(),
                    array_buffer.context(),
                    CallView::Ask(
                        Query::CreateTypedArray {
                            kind: T::kind(),
                            count: count_elements,
                            buffer: array_buffer.raw(),
                            offset: byte_offset,
                        },
                    ),
                )
                &&& match result {
                    Ok(array) => final(host).answer().status.succeeded() && array.layout()
                        == (Layout {
                        value: final(host).answer().handle(),
                        env: array_buffer.context(),
                        data: (array_buffer.start() + byte_offset) as usize,
                        len: count_elements,
                        array_buffer: array_buffer.raw(),
                        byte_offset,
                    }),
                    Err(error) => !final(host).answer().status.succeeded() && error
                        == Error::failure(final(host).answer().status),
                }
            },
    {
        let env = array_buffer.env();
        let start = array_buffer.as_ptr();
        if byte_offset > usize::MAX - start {
            return Err(Error { kind: ErrorKind::GenericFailure, message: None, exception: None });
        }
        let reply = host.call(
            env,
            Call::Ask(
                Query::CreateTypedArray {
                    kind: T::array_type(),
                    count: count_elements,
                    buffer: array_buffer.as_sys_value(),
                    offset: byte_offset,
                },
            ),
        );
        env.handle_status(reply.status)?;
        Ok(
            TypedArray {
                layout: Layout {
                    value: reply.handle(),
                    env,
                    data: start + byte_offset,
                    len: count_elements,
                    array_buffer: array_buffer.as_sys_value(),
                    byte_offset,
                },
                element: PhantomData,
            },
        )
    }

    /// Wraps a layout that was validated for elements of this kind.
    pub(crate) fn with_layout(layout: Layout) -> (array: TypedArray<T>)
        ensures
            array.layout() == layout,
    {
        TypedArray { layout, element: PhantomData }
    }

    /// The element kind of the array.
    pub fn array_type(&self) -> (kind: ElementKind)
        ensures
            kind == T::kind(),
    {
        T::array_type()
    }

    /// The address of the first element.
    pub fn as_ptr(&self) -> (data: usize)
        ensures
            data == self.layout().data,
    {
        self.layout.data
    }

    /// The buffer under the array.
    pub fn array_buffer(&self) -> (buffer: usize)
        ensures
            buffer == self.layout().array_buffer,
    {
        self.layout.array_buffer
    }

    /// The byte offset of the array into its buffer.
    pub fn byte_offset(&self) -> (offset: usize)
        ensures
            offset == self.layout().byte_offset,
    {
        self.layout.byte_offset
    }

    /// The number of elements.
    pub fn len(&self) -> (len: usize)
        ensures
            len == self.layout().len,
    {
        self.layout.len
    }

    pub fn is_empty(&self) -> (empty: bool)
        ensures
            empty == (self.layout().len == 0),
    {
        self.layout.len == 0
    }
}

impl<T: TypedArrayElement> Value for TypedArray<T> {
    closed spec fn raw(&self) -> usize {
        self.layout.value
    }

    closed spec fn context(&self) -> Env {
        self.layout.env
    }

    fn as_sys_value(&self) -> usize {
        self.layout.value
    }

    fn env(&self) -> Env {
        self.layout.env
    }

    /// That the host calls `value` a typed array is not enough: its element
    /// kind has to be that of `T`, and the refusal names the array that was
    /// expected.
    fn from_sys_checked<H: Host>(
        host: &mut Session<H>,
        env: Env,
        value: usize,
    ) -> (result: Result<TypedArray<T>, Error>)
        ensures
            typed_checked(
                final(host).trace(),
                old(host).trace().len() as int,
                final(host).trace().len() as int,
                env,
                value,
                T::kind(),
                unit(result),
            ),
            result matches Ok(array) ==> array.layout() == described(
                final(host).answer(),
                env,
                value,
            ),
    {
        let layout = check_layout(host, env, value, T::array_type(), T::array_type_name())?;
        Ok(TypedArray { layout, element: PhantomData })
    }
}

impl<T: TypedArrayElement> AsObject for TypedArray<T> {
}

/// The element of an `Int8Array`.
#[derive(Clone, Copy, Debug)]
pub struct Int8ArrayElement;

impl TypedArrayElement for Int8ArrayElement {
    open spec fn kind() -> ElementKind {
        ElementKind::Int8
    }

    fn array_type() -> ElementKind {
        ElementKind::Int8
    }

    fn array_type_name() -> &'static str {
        "Int8Array"
    }
}

pub type Int8Array = TypedArray<Int8ArrayElement>;

/// The element of an `UInt8Array`.
#[derive(Clone, Copy, Debug)]
pub struct UInt8ArrayElement;

impl TypedArrayElement for UInt8ArrayElement {
    open spec fn kind() -> ElementKind {
        ElementKind::UInt8
    }

    fn array_type() -> ElementKind {
        ElementKind::UInt8
    }

    fn array_type_name() -> &'static str {
        "UInt8Array"
    }
}

pub type UInt8Array = TypedArray<UInt8ArrayElement>;

/// The element of an `UInt8ClampedArray`.
#[derive(Clone, Copy, Debug)]
pub struct UInt8ClampedArrayElement;

impl TypedArrayElement for UInt8ClampedArrayElement {
    open spec fn kind() -> ElementKind {
        ElementKind::UInt8Clamped
    }

    fn array_type() -> ElementKind {
        ElementKind::UInt8Clamped
    }

    fn array_type_name() -> &'static str {
        "UInt8ClampedArray"
    }
}

pub type UInt8ClampedArray = TypedArray<UInt8ClampedArrayElement>;

/// The element of an `Int16Array`.
#[derive(Clone, Copy, Debug)]
pub struct Int16ArrayElement;

impl TypedArrayElement for Int16ArrayElement {
    open spec fn kind() -> ElementKind {
        ElementKind::Int16
    }

    fn array_type() -> ElementKind {
        ElementKind::Int16
    }

    fn array_type_name() -> &'static str {
        "Int16Array"
    }
}

pub type Int16Array = TypedArray<Int16ArrayElement>;

/// The element of an `UInt16Array`.
#[derive(Clone, Copy, Debug)]
pub struct UInt16ArrayElement;

impl TypedArrayElement for UInt16ArrayElement {
    open spec fn kind() -> ElementKind {
        ElementKind::UInt16
    }

    fn array_type() -> ElementKind {
        ElementKind::UInt16
    }

    fn array_type_name() -> &'static str {
        "UInt16Array"
    }
}

pub type UInt16Array = TypedArray<UInt16ArrayElement>;

/// The element of an `Int32Array`.
#[derive(Clone, Copy, Debug)]
pub struct Int32ArrayElement;

impl TypedArrayElement for Int32ArrayElement {
    open spec fn kind() -> ElementKind {
        ElementKind::Int32
    }

    fn array_type() -> ElementKind {
        ElementKind::Int32
    }

    fn array_type_name() -> &'static str {
        "Int32Array"
    }
}

pub type Int32Array = TypedArray<Int32ArrayElement>;

/// The element of an `UInt32Array`.
#[derive(Clone, Copy, Debug)]
pub struct UInt32ArrayElement;

impl TypedArrayElement for UInt32ArrayElement {
    open spec fn kind() -> ElementKind {
        ElementKind::UInt32
    }

    fn array_type() -> ElementKind {
        ElementKind::UInt32
    }

    fn array_type_name() -> &'static str {
        "UInt32Array"
    }
}

pub type UInt32Array = TypedArray<UInt32ArrayElement>;

/// The element of an `Float32Array`.
#[derive(Clone, Copy, Debug)]
pub struct Float32ArrayElement;

impl TypedArrayElement for Float32ArrayElement {
    open spec fn kind() -> ElementKind {
        ElementKind::Float32
    }

    fn array_type() -> ElementKind {
        ElementKind::Float32
    }

    fn array_type_name() -> &'static str {
        "Float32Array"
    }
}

pub type Float32Array = TypedArray<Float32ArrayElement>;

/// The element of an `Float64Array`.
#[derive(Clone, Copy, Debug)]
pub struct Float64ArrayElement;

impl TypedArrayElement for Float64ArrayElement {
    open spec fn kind() -> ElementKind {
        ElementKind::Float64
    }

    fn array_type() -> ElementKind {
        ElementKind::Float64
    }

    fn array_type_name() -> &'static str {
        "Float64Array"
    }
}

pub type Float64Array = TypedArray<Float64ArrayElement>;

/// The element of an `BigInt64Array`.
#[derive(Clone, Copy, Debug)]
pub struct BigInt64ArrayElement;

impl TypedArrayElement for BigInt64ArrayElement {
    open spec fn kind() -> ElementKind {
        ElementKind::BigInt64
    }

    fn array_type() -> ElementKind {
        ElementKind::BigInt64
    }

    fn array_type_name() -> &'static str {
        "BigInt64Array"
    }
}

pub type BigInt64Array = TypedArray<BigInt64ArrayElement>;

/// The element of an `BigUInt64Array`.
#[derive(Clone, Copy, Debug)]
pub struct BigUInt64ArrayElement;

impl TypedArrayElement for BigUInt64ArrayElement {
    open spec fn kind() -> ElementKind {
        ElementKind::BigUInt64
    }

    fn array_type() -> ElementKind {
        ElementKind::BigUInt64
    }

    fn array_type_name() -> &'static str {
        "BigUInt64Array"
    }
}

pub type BigUInt64Array = TypedArray<BigUInt64ArrayElement>;

} // verus!
