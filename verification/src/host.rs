use vstd::prelude::*;

use crate::env::Env;
use crate::status::Status;
use crate::value::{ElementKind, ValueType};

verus! {

/// The host's yes-or-no questions about what a value is.
#[derive(Clone, Copy, Debug, PartialEq, Eq, Structural)]
pub enum Predicate {
    Array,
    ArrayBuffer,
    Buffer,
    Error,
    TypedArray,
    DataView,
}

/// The targets of the host's coercions.
#[derive(Clone, Copy, Debug, PartialEq, Eq, Structural)]
pub enum Coercion {
    Boolean,
    Number,
    Object,
    String,
}

/// The encodings in which the host hands out a string's content.
#[derive(Clone, Copy, Debug, PartialEq, Eq, Structural)]
pub enum Encoding {
    Utf8,
    Latin1,
    Utf16,
}

/// The throwables that the host makes from a message.
#[derive(Clone, Copy, Debug, PartialEq, Eq, Structural)]
pub enum ErrorClass {
    Error,
    TypeError,
    RangeError,
}

/// A call that carries only handles and numbers.
#[allow(inconsistent_fields)]
#[derive(Clone, Copy, Debug, PartialEq, Eq, Structural)]
pub enum Query {
    /// The runtime type tag of a value.
    TypeOf { value: usize },
    InstanceOf { value: usize, constructor: usize },
    Test { predicate: Predicate, value: usize },
    StrictEquals { left: usize, right: usize },
    Coerce { target: Coercion, value: usize },
    GetUndefined,
    GetNull,
    GetBoolean { value: bool },
    CreateInt32 { value: i32 },
    CreateInt64 { value: i64 },
    /// A new number from the bits of a 64-bit float.
    CreateDouble { bits: u64 },
    GetValueInt32 { value: usize },
    GetValueInt64 { value: usize },
    GetValueDouble { value: usize },
    GetValueBool { value: usize },
    /// How many units the string holds in this encoding.
    StringLength { encoding: Encoding, value: usize },
    /// The string's content, into a buffer of `capacity` units of which the
    /// last takes the terminator.
    StringContent { encoding: Encoding, value: usize, capacity: usize },
    CreateObject,
    CreateArray,
    CreateArrayWithLength { len: usize },
    GetArrayLength { value: usize },
    GetPrototype { object: usize },
    GetPropertyNames { object: usize },
    SetProperty { object: usize, key: usize, value: usize },
    GetProperty { object: usize, key: usize },
    HasProperty { object: usize, key: usize },
    HasOwnProperty { object: usize, key: usize },
    DeleteProperty { object: usize, key: usize },
    SetElement { object: usize, index: u32, value: usize },
    GetElement { object: usize, index: u32 },
    HasElement { object: usize, index: u32 },
    DeleteElement { object: usize, index: u32 },
    CreateArrayBuffer { len: usize },
    CreateBuffer { len: usize },
    GetArrayBufferInfo { value: usize },
    GetBufferInfo { value: usize },
    CreateTypedArray { kind: ElementKind, count: usize, buffer: usize, offset: usize },
    GetTypedArrayInfo { value: usize },
    /// A new throwable of this class with the host string `message`.
    CreateError { class: ErrorClass, message: usize },
    /// Throw this very exception.
    Throw { exception: usize },
    /// The arguments of the invocation `info`, at most `capacity` of them.
    GetCallbackInfo { info: usize, capacity: usize },
}

/// One call into the host runtime.
#[derive(Clone, Debug, PartialEq, Eq)]
pub enum Call {
    Ask(Query),
    /// A new host string from text in UTF-8.
    CreateStringUtf8(std::string::String),
    /// A new host string from Latin-1 bytes.
    CreateStringLatin1(Vec<u8>),
    /// A new host string from UTF-16 code units.
    CreateStringUtf16(Vec<u16>),
    /// Throw a generic runtime error with this message.
    ThrowError(std::string::String),
}

/// A [`Call`] as contracts see it.
pub enum CallView {
    Ask(Query),
    CreateStringUtf8(Seq<char>),
    CreateStringLatin1(Seq<u8>),
    CreateStringUtf16(Seq<u16>),
    ThrowError(Seq<char>),
}

impl View for Call {
    type V = CallView;

    open spec fn view(&self) -> CallView {
        match self {
            Call::Ask(query) => CallView::Ask(*query),
            Call::CreateStringUtf8(text) => CallView::CreateStringUtf8(text@),
            Call::CreateStringLatin1(bytes) => CallView::CreateStringLatin1(bytes@),
            Call::CreateStringUtf16(units) => CallView::CreateStringUtf16(units@),
            Call::ThrowError(text) => CallView::ThrowError(text@),
        }
    }
}

/// What a host call wrote to its out-parameters.
#[derive(Clone, Debug, PartialEq, Eq)]
pub enum Payload {
    Nothing,
    Handle(usize),
    Flag(bool),
    Tag(ValueType),
    Int32(i32),
    Int64(i64),
    /// The bits of a 64-bit float.
    Double(u64),
    Length(u32),
    Size(usize),
    /// A new buffer: its handle and where its bytes are.
    Allocation { value: usize, data: usize },
    /// Where the bytes of a buffer are and how many.
    Extent { data: usize, len: usize },
    /// A typed array: its element kind, how many elements, where they are,
    /// the buffer under it and the byte offset into that buffer.
    View { kind: ElementKind, len: usize, data: usize, buffer: usize, offset: usize },
    /// The number of arguments of an invocation and the handles handed out.
    Arguments { count: usize, handles: Vec<usize> },
    Bytes(Vec<u8>),
    Units(Vec<u16>),
}

/// The host's answer to one call.
#[derive(Clone, Debug, PartialEq, Eq)]
pub struct Reply {
    pub status: Status,
    pub payload: Payload,
}

impl Reply {
    /// The handle in the answer. Where the host wrote none, the null handle
    /// that the slot held before the call.
    pub open spec fn spec_handle(&self) -> usize {
        match self.payload {
            Payload::Handle(value) => value,
            Payload::Allocation { value, data } => value,
            _ => 0,
        }
    }

    #[verifier::when_used_as_spec(spec_handle)]
    pub fn handle(&self) -> (value: usize)
        ensures
            value == self.spec_handle(),
    {
        match &self.payload {
            Payload::Handle(value) => *value,
            Payload::Allocation { value, data } => *value,
            _ => 0,
        }
    }

    /// The flag in the answer, `false` where the host wrote none.
    pub open spec fn spec_flag(&self) -> bool {
        match self.payload {
            Payload::Flag(flag) => flag,
            _ => false,
        }
    }

    #[verifier::when_used_as_spec(spec_flag)]
    pub fn flag(&self) -> (flag: bool)
        ensures
            flag == self.spec_flag(),
    {
        match &self.payload {
            Payload::Flag(flag) => *flag,
            _ => false,
        }
    }

    /// The type tag in the answer, that of `undefined` where the host wrote
    /// none.
    pub open spec fn spec_tag(&self) -> ValueType {
        match self.payload {
            Payload::Tag(tag) => tag,
            _ => ValueType::Undefined,
        }
    }

    #[verifier::when_used_as_spec(spec_tag)]
    pub fn tag(&self) -> (tag: ValueType)
        ensures
            tag == self.spec_tag(),
    {
        match &self.payload {
            Payload::Tag(tag) => *tag,
            _ => ValueType::Undefined,
        }
    }

    /// The 32-bit integer in the answer, 0 where the host wrote none.
    pub open spec fn spec_int32(&self) -> i32 {
        match self.payload {
            Payload::Int32(number) => number,
            _ => 0,
        }
    }

    #[verifier::when_used_as_spec(spec_int32)]
    pub fn int32(&self) -> (number: i32)
        ensures
            number == self.spec_int32(),
    {
        match &self.payload {
            Payload::Int32(number) => *number,
            _ => 0,
        }
    }

    /// The 64-bit integer in the answer, 0 where the host wrote none.
    pub open spec fn spec_int64(&self) -> i64 {
        match self.payload {
            Payload::Int64(number) => number,
            _ => 0,
        }
    }

    #[verifier::when_used_as_spec(spec_int64)]
    pub fn int64(&self) -> (number: i64)
        ensures
            number == self.spec_int64(),
    {
        match &self.payload {
            Payload::Int64(number) => *number,
            _ => 0,
        }
    }

    /// The bits of the float in the answer, those of zero where the host
    /// wrote none.
    pub open spec fn spec_double(&self) -> u64 {
        match self.payload {
            Payload::Double(bits) => bits,
            _ => 0,
        }
    }

    #[verifier::when_used_as_spec(spec_double)]
    pub fn double(&self) -> (bits: u64)
        ensures
            bits == self.spec_double(),
    {
        match &self.payload {
            Payload::Double(bits) => *bits,
            _ => 0,
        }
    }

    /// The array length in the answer, 0 where the host wrote none.
    pub open spec fn spec_length(&self) -> u32 {
        match self.payload {
            Payload::Length(len) => len,
            _ => 0,
        }
    }

    #[verifier::when_used_as_spec(spec_length)]
    pub fn length(&self) -> (len: u32)
        ensures
            len == self.spec_length(),
    {
        match &self.payload {
            Payload::Length(len) => *len,
            _ => 0,
        }
    }

    /// The size in the answer: of a string, of a buffer, or the number of
    /// elements of a typed array. 0 where the host wrote none.
    pub open spec fn spec_size(&self) -> usize {
        match self.payload {
            Payload::Size(size) => size,
            Payload::Extent { data, len } => len,
            Payload::View { kind, len, data, buffer, offset } => len,
            _ => 0,
        }
    }

    #[verifier::when_used_as_spec(spec_size)]
    pub fn size(&self) -> (size: usize)
        ensures
            size == self.spec_size(),
    {
        match &self.payload {
            Payload::Size(size) => *size,
            Payload::Extent { data, len } => *len,
            Payload::View { kind, len, data, buffer, offset } => *len,
            _ => 0,
        }
    }

    /// Where the bytes are of which the answer speaks, the null address
    /// where the host wrote none.
    pub open spec fn spec_data(&self) -> usize {
        match self.payload {
            Payload::Allocation { value, data } => data,
            Payload::Extent { data, len } => data,
            Payload::View { kind, len, data, buffer, offset } => data,
            _ => 0,
        }
    }

    #[verifier::when_used_as_spec(spec_data)]
    pub fn data(&self) -> (data: usize)
        ensures
            data == self.spec_data(),
    {
        match &self.payload {
            Payload::Allocation { value, data } => *data,
            Payload::Extent { data, len } => *data,
            Payload::View { kind, len, data, buffer, offset } => *data,
            _ => 0,
        }
    }

    /// The element kind in the answer, that of signed bytes where the host
    /// wrote none.
    pub open spec fn spec_kind(&self) -> ElementKind {
        match self.payload {
            Payload::View { kind, len, data, buffer, offset } => kind,
            _ => ElementKind::Int8,
        }
    }

    #[verifier::when_used_as_spec(spec_kind)]
    pub fn kind(&self) -> (kind: ElementKind)
        ensures
            kind == self.spec_kind(),
    {
        match &self.payload {
            Payload::View { kind, len, data, buffer, offset } => *kind,
            _ => ElementKind::Int8,
        }
    }

    /// The buffer under the typed array of which the answer speaks, the null
    /// handle where the host wrote none.
    pub open spec fn spec_buffer(&self) -> usize {
        match self.payload {
            Payload::View { kind, len, data, buffer, offset } => buffer,
            _ => 0,
        }
    }

    #[verifier::when_used_as_spec(spec_buffer)]
    pub fn buffer(&self) -> (buffer: usize)
        ensures
            buffer == self.spec_buffer(),
    {
        match &self.payload {
            Payload::View { kind, len, data, buffer, offset } => *buffer,
            _ => 0,
        }
    }

    /// The byte offset in the answer, 0 where the host wrote none.
    pub open spec fn spec_offset(&self) -> usize {
        match self.payload {
            Payload::View { kind, len, data, buffer, offset } => offset,
            _ => 0,
        }
    }

    #[verifier::when_used_as_spec(spec_offset)]
    pub fn offset(&self) -> (offset: usize)
        ensures
            offset == self.spec_offset(),
    {
        match &self.payload {
            Payload::View { kind, len, data, buffer, offset } => *offset,
            _ => 0,
        }
    }

    /// The number of arguments in the answer, 0 where the host wrote none.
    pub open spec fn spec_count(&self) -> usize {
        match self.payload {
            Payload::Arguments { count, handles } => count,
            _ => 0,
        }
    }

    #[verifier::when_used_as_spec(spec_count)]
    pub fn count(&self) -> (count: usize)
        ensures
            count == self.spec_count(),
    {
        match &self.payload {
            Payload::Arguments { count, handles } => *count,
            _ => 0,
        }
    }

    /// The handle of argument `index` in the answer. A slot that the host
    /// did not fill holds the null handle.
    pub open spec fn spec_argument(&self, index: usize) -> usize {
        match self.payload {
            Payload::Arguments { count, handles } => if index < handles@.len() {
                handles@[index as int]
            } else {
                0
            },
            _ => 0,
        }
    }

    #[verifier::when_used_as_spec(spec_argument)]
    pub fn argument(&self, index: usize) -> (handle: usize)
        ensures
            handle == self.spec_argument(index),
    {
        match &self.payload {
            Payload::Arguments { count, handles } => if index < handles.len() {
                handles[index]
            } else {
                0
            },
            _ => 0,
        }
    }

    /// The bytes in the answer, none where the host wrote none.
    pub open spec fn spec_bytes(&self) -> Seq<u8> {
        match self.payload {
            Payload::Bytes(bytes) => bytes@,
            _ => Seq::empty(),
        }
    }

    /// Takes the bytes out of the answer.
    pub fn into_bytes(self) -> (bytes: Vec<u8>)
        ensures
            bytes@ == self.spec_bytes(),
    {
        match self.payload {
            Payload::Bytes(bytes) => bytes,
            _ => Vec::new(),
        }
    }

    /// The 16-bit units in the answer, none where the host wrote none.
    pub open spec fn spec_units(&self) -> Seq<u16> {
        match self.payload {
            Payload::Units(units) => units@,
            _ => Seq::empty(),
        }
    }

    /// Takes the 16-bit units out of the answer.
    pub fn into_units(self) -> (units: Vec<u16>)
        ensures
            units@ == self.spec_units(),
    {
        match self.payload {
            Payload::Units(units) => units,
            _ => Vec::new(),
        }
    }
}

/// One call and its answer.
pub struct Exchange {
    pub env: Env,
    pub call: CallView,
    pub reply: Reply,
}

/// The host runtime, as far as this crate needs it: something that answers
/// calls. No answer is ruled out.
pub trait Host {
    fn call(&mut self, env: Env, call: Call) -> Reply;
}

/// A host together with the record of what it was asked and what it
/// answered.
pub struct Session<H: Host> {
    host: H,
    log: Ghost<Seq<Exchange>>,
}

/// `after` is `before` and one more exchange: `call`, made in `env`.
pub open spec fn asked(
    before: Seq<Exchange>,
    after: Seq<Exchange>,
    env: Env,
    call: CallView,
) -> bool {
    &&& after.len() == before.len() + 1
    &&& after.drop_last() == before
    &&& after.last().env == env
    &&& after.last().call == call
}

/// `after` begins with all of `before`.
pub open spec fn continues(before: Seq<Exchange>, after: Seq<Exchange>) -> bool {
    &&& before.len() <= after.len()
    &&& after.take(before.len() as int) == before
}

/// The exchange at `at` is `call`, made in `env`.
pub open spec fn asks(trace: Seq<Exchange>, at: int, env: Env, call: CallView) -> bool {
    &&& 0 <= at < trace.len()
    &&& trace[at].env == env
    &&& trace[at].call == call
}

/// One more exchange continues a record.
pub proof fn lemma_asked_continues(
    before: Seq<Exchange>,
    after: Seq<Exchange>,
    env: Env,
    call: CallView,
)
    requires
        asked(before, after, env, call),
    ensures
        continues(before, after),
        asks(after, before.len() as int, env, call),
{
    assert(after.take(before.len() as int) =~= after.drop_last());
}

/// Every record continues itself.
pub proof fn lemma_continues_refl(trace: Seq<Exchange>)
    ensures
        continues(trace, trace),
{
    assert(trace.take(trace.len() as int) =~= trace);
}

/// What is on record stays on record, at its place.
pub proof fn lemma_continues_index(before: Seq<Exchange>, after: Seq<Exchange>)
    requires
        continues(before, after),
    ensures
        forall|at: int| 0 <= at < before.len() ==> before[at] == #[trigger] after[at],
{
    assert forall|at: int| 0 <= at < before.len() implies before[at] == #[trigger] after[at] by {
        assert(after.take(before.len() as int)[at] == after[at]);
    }
}

/// Continuing is transitive, and what was asked stays asked.
pub proof fn lemma_continues_trans(
    first: Seq<Exchange>,
    second: Seq<Exchange>,
    third: Seq<Exchange>,
)
    requires
        continues(first, second),
        continues(second, third),
    ensures
        continues(first, third),
        forall|at: int| 0 <= at < second.len() ==> second[at] == #[trigger] third[at],
{
    assert(
        third.take(first.len() as int) =~= third.take(second.len() as int).take(
            first.len() as int,
        )
    );
    assert forall|at: int| 0 <= at < second.len() implies second[at] == #[trigger] third[at] by {
        assert(third.take(second.len() as int)[at] == third[at]);
    }
}

impl<H: Host> Session<H> {
    /// Every exchange with the host so far, oldest first.
    pub closed spec fn trace(&self) -> Seq<Exchange> {
        self.log@
    }

    /// The latest answer of the host.
    pub open spec fn answer(&self) -> Reply {
        self.trace().last().reply
    }

    /// The host under the session.
    pub closed spec fn inner(&self) -> H {
        self.host
    }

    /// A session with `host` in which nothing was asked yet.
    pub fn new(host: H) -> (session: Self)
        ensures
            session.trace() == Seq::<Exchange>::empty(),
            session.inner() == host,
    {
        Session { host, log: Ghost(Seq::empty()) }
    }

    /// Makes one call and records it with its answer.
    pub fn call(&mut self, env: Env, call: Call) -> (reply: Reply)
        ensures
            asked(old(self).trace(), final(self).trace(), env, call@),
            final(self).answer() == reply,
    {
        let ghost asking = call@;
        let reply = self.host.call(env, call);
        proof {
            let ghost before = self.log@;
            self.log@ = self.log@.push(Exchange { env, call: asking, reply });
            assert(self.log@.drop_last() =~= before);
        }
        reply
    }

    pub fn host(&self) -> (host: &H)
        ensures
            *host == self.inner(),
    {
        &self.host
    }

    /// Ends the session and gives the host back.
    pub fn into_host(self) -> (host: H)
        ensures
            host == self.inner(),
    {
        self.host
    }
}

/// A host that answers from a prepared list, in order, and keeps what it was
/// asked. Once the list is used up it answers every call with a generic
/// failure.
pub struct Script {
    replies: Vec<Reply>,
    calls: Vec<Call>,
}

impl Script {
    /// The answers not yet given, the next one first.
    pub closed spec fn pending(&self) -> Seq<Reply> {
        self.replies@
    }

    /// The calls received so far, oldest first.
    pub closed spec fn record(&self) -> Seq<Call> {
        self.calls@
    }

    /// A script that will give `replies` in order.
    pub fn new(replies: Vec<Reply>) -> (script: Script)
        ensures
            script.pending() == replies@,
            script.record() == Seq::<Call>::empty(),
    {
        Script { replies, calls: Vec::new() }
    }

    /// The calls received so far, oldest first.
    pub fn calls(&self) -> (calls: &Vec<Call>)
        ensures
            calls@ == self.record(),
    {
        &self.calls
    }

    /// How many prepared answers are left.
    pub fn remaining(&self) -> (count: usize)
        ensures
            count == self.pending().len(),
    {
        self.replies.len()
    }
}

impl Host for Script {
    fn call(&mut self, env: Env, call: Call) -> (reply: Reply)
        ensures
            final(self).record() == old(self).record().push(call),
            old(self).pending().len() > 0
                ==> reply == old(self).pending()[0] && final(self).pending()
                == old(self).pending().remove(0),
            old(self).pending().len() == 0 ==> reply == (Reply {
                status: Status::GenericFailure,
                payload: Payload::Nothing,
            }) && final(self).pending() == old(self).pending(),
    {
        self.calls.push(call);
        if self.replies.len() > 0 {
            self.replies.remove(0)
        } else {
            Reply { status: Status::GenericFailure, payload: Payload::Nothing }
        }
    }
}

} // verus!
