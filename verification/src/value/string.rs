use vstd::prelude::*;
use vstd::utf8::*;

use crate::env::Env;
use crate::host::{asked, asks, continues, Call, CallView, Encoding, Exchange, Host, Query, Session};
use crate::result::{Error, ErrorKind};

use super::{
    answered, expect_tag, judged, unit, wrapped, AsObject, Value, ValueInternal, ValueType,
};

verus! {

/// A string of the host.
#[derive(Clone, Copy, Debug)]
pub struct String {
    value: usize,
    env: Env,
}

/// What is left of a buffer when the terminator that the host wrote behind
/// the content is taken off.
pub open spec fn content<T>(buffer: Seq<T>) -> Seq<T> {
    if buffer.len() > 0 {
        buffer.drop_last()
    } else {
        buffer
    }
}

/// The error for what cannot be held: a length that no buffer has, bytes
/// that spell no text, an address past the last one.
pub open spec fn unusable() -> Error {
    Error { kind: ErrorKind::GenericFailure, message: None, exception: None }
}

/// The exchanges of `trace` from `at` to `end` are the reading of the string
/// `value` in `encoding`: its length is asked; then, unless that failed or
/// no buffer can be one longer, its content, into a buffer one longer than
/// the length.
pub open spec fn fetched(
    trace: Seq<Exchange>,
    at: int,
    end: int,
    env: Env,
    value: usize,
    encoding: Encoding,
) -> bool {
    &&& asks(trace, at, env, CallView::Ask(Query::StringLength { encoding, value }))
    &&& end <= trace.len()
    &&& if trace[at].reply.status.succeeded() && trace[at].reply.size() < usize::MAX {
        &&& end == at + 2
        &&& asks(
            trace,
            at + 1,
            env,
            CallView::Ask(
                Query::StringContent {
                    encoding,
                    value,
                    capacity: (trace[at].reply.size() + 1) as usize,
                },
            ),
        )
    } else {
        end == at + 1
    }
}

/// Why the reading that `fetched` describes fails, if it does: the first
/// failing status, or a length that no buffer can hold.
pub open spec fn fetch_failure(trace: Seq<Exchange>, at: int) -> Option<Error> {
    if !trace[at].reply.status.succeeded() {
        Some(Error::failure(trace[at].reply.status))
    } else if trace[at].reply.size() == usize::MAX {
        Some(unusable())
    } else if !trace[at + 1].reply.status.succeeded() {
        Some(Error::failure(trace[at + 1].reply.status))
    } else {
        None
    }
}

/// What the reading that `fetched` describes comes to, given the buffer
/// that the last answer holds: the content of the buffer, or the failure.
pub open spec fn fetch_result<T>(
    trace: Seq<Exchange>,
    at: int,
    units: Seq<T>,
) -> Result<Seq<T>, Error> {
    match fetch_failure(trace, at) {
        Some(error) => Err(error),
        None => Ok(content(units)),
    }
}

/// A result with the view of what it holds.
pub open spec fn viewed<T>(result: Result<Vec<T>, Error>) -> Result<Seq<T>, Error> {
    match result {
        Ok(units) => Ok(units@),
        Err(error) => Err(error),
    }
}

/// What a reading as text comes to, given what the reading as bytes came to:
/// the text that the bytes spell in UTF-8; the error for an unusable answer
/// where they spell none; the error of the reading where it failed.
pub open spec fn read_as_text(
    fetch: Result<Seq<u8>, Error>,
    result: Result<std::string::String, Error>,
) -> bool {
    match fetch {
        Ok(bytes) => if valid_utf8(bytes) {
            result matches Ok(text) && text@ == decode_utf8(bytes)
        } else {
            result == Err::<std::string::String, Error>(unusable())
        },
        Err(error) => result == Err::<std::string::String, Error>(error),
    }
}

/// The text that bytes spell in UTF-8, where they spell one. This is std's
/// `String::from_utf8`, of which nothing is proved here: it is taken to
/// accept exactly the byte sequences that are valid UTF-8 and to hand back
/// the text that they encode.
#[verifier::external_body]
fn decode(bytes: Vec<u8>) -> (text: Option<std::string::String>)
    ensures
        text.is_some() == valid_utf8(bytes@),
        text.is_some() ==> text.unwrap()@ == decode_utf8(bytes@),
{
    std::string::String::from_utf8(bytes).ok()
}

/// Asks the host for a new string with the text `value` and hands back its
/// handle.
pub(crate) fn create<H: Host>(
    host: &mut Session<H>,
    env: Env,
    value: &str,
) -> (result: Result<usize, Error>)
    ensures
        asked(old(host).trace(), final(host).trace(), env, CallView::CreateStringUtf8(value@)),
        answered(final(host).answer(), final(host).answer().handle(), result),
{
    let reply = host.call(env, Call::CreateStringUtf8(value.to_owned()));
    env.handle_status(reply.status)?;
    Ok(reply.handle())
}

impl String {
    /// A new host string with the text `value`.
    pub fn from_str<H: Host>(
        host: &mut Session<H>,
        env: Env,
        value: &str,
    ) -> (result: Result<String, Error>)
        ensures
            asked(old(host).trace(), final(host).trace(), env, CallView::CreateStringUtf8(value@)),
            wrapped(final(host).answer(), env, result),
    {
        let value = create(host, env, value)?;
        Ok(String { value, env })
    }

    /// A new host string from Latin-1 bytes.
    pub fn from_latin1<H: Host>(
        host: &mut Session<H>,
        env: Env,
        value: &[u8],
    ) -> (result: Result<String, Error>)
        ensures
            asked(
                old(host).trace(),
                final(host).trace(),
                env,
                CallView::CreateStringLatin1(value@),
            ),
            wrapped(final(host).answer(), env, result),
    {
        let reply = host.call(env, Call::CreateStringLatin1(vstd::slice::slice_to_vec(value)));
        env.handle_status(reply.status)?;
        Ok(String { value: reply.handle(), env })
    }

    /// A new host string from UTF-16 code units.
    pub fn from_utf16<H: Host>(
        host: &mut Session<H>,
        env: Env,
        value: &[u16],
    ) -> (result: Result<String, Error>)
        ensures
            asked(old(host).trace(), final(host).trace(), env, CallView::CreateStringUtf16(value@)),
            wrapped(final(host).answer(), env, result),
    {
        let reply = host.call(env, Call::CreateStringUtf16(vstd::slice::slice_to_vec(value)));
        env.handle_status(reply.status)?;
        Ok(String { value: reply.handle(), env })
    }

    /// Reads the string in `encoding`: asks for its length, then for its
    /// content, and hands back the host's last answer.
    fn to_vec<H: Host>(
        &self,
        host: &mut Session<H>,
        encoding: Encoding,
    ) -> (result: Result<crate::host::Reply, Error>)
        ensures
            continues(old(host).trace(), final(host).trace()),
            fetched(
                final(host).trace(),
                old(host).trace().len() as int,
                final(host).trace().len() as int,
                self.context(),
                self.raw(),
                encoding,
            ),
            match result {
                Ok(reply) => reply == final(host).answer() && fetch_failure(
                    final(host).trace(),
                    old(host).trace().len() as int,
                ) is None,
                Err(error) => fetch_failure(final(host).trace(), old(host).trace().len() as int)
                    == Some(error),
            },
    {
        let ghost before = host.trace();
        let length = host.call(
            self.env,
            Call::Ask(Query::StringLength { encoding, value: self.value }),
        );
        let ghost asked_length = host.trace();
        proof {
            crate::host::lemma_asked_continues(
                before,
                asked_length,
                self.env,
                CallView::Ask(Query::StringLength { encoding, value: self.value }),
            );
        }
        self.env.handle_status(length.status)?;
        let bufsize = length.size();
        if bufsize == usize::MAX {
            return Err(Error { kind: ErrorKind::GenericFailure, message: None, exception: None });
        }
        let reply = host.call(
            self.env,
            Call::Ask(Query::StringContent { encoding, value: self.value, capacity: bufsize + 1 }),
        );
        proof {
            crate::host::lemma_asked_continues(
                asked_length,
                host.trace(),
                self.env,
                CallView::Ask(
                    Query::StringContent {
                        encoding,
                        value: self.value,
                        capacity: (bufsize + 1) as usize,
                    },
                ),
            );
            crate::host::lemma_continues_trans(before, asked_length, host.trace());
        }
        self.env.handle_status(reply.status)?;
        Ok(reply)
    }

    /// The string's content in UTF-8.
    pub fn to_bytes<H: Host>(&self, host: &mut Session<H>) -> (result: Result<Vec<u8>, Error>)
        ensures
            continues(old(host).trace(), final(host).trace()),
            fetched(
                final(host).trace(),
                old(host).trace().len() as int,
                final(host).trace().len() as int,
                self.context(),
                self.raw(),
                Encoding::Utf8,
            ),
            viewed(result) == fetch_result(
                final(host).trace(),
                old(host).trace().len() as int,
                final(host).answer().spec_bytes(),
            ),
    {
        let reply = self.to_vec(host, Encoding::Utf8)?;
        let mut buffer = reply.into_bytes();
        buffer.pop();
        Ok(buffer)
    }

    /// The string's content in Latin-1.
    pub fn to_latin1<H: Host>(&self, host: &mut Session<H>) -> (result: Result<Vec<u8>, Error>)
        ensures
            continues(old(host).trace(), final(host).trace()),
            fetched(
                final(host).trace(),
                old(host).trace().len() as int,
                final(host).trace().len() as int,
                self.context(),
                self.raw(),
                Encoding::Latin1,
            ),
            viewed(result) == fetch_result(
                final(host).trace(),
                old(host).trace().len() as int,
                final(host).answer().spec_bytes(),
            ),
    {
        let reply = self.to_vec(host, Encoding::Latin1)?;
        let mut buffer = reply.into_bytes();
        buffer.pop();
        Ok(buffer)
    }

    /// The string's content in UTF-16.
    pub fn to_utf16<H: Host>(&self, host: &mut Session<H>) -> (result: Result<Vec<u16>, Error>)
        ensures
            continues(old(host).trace(), final(host).trace()),
            fetched(
                final(host).trace(),
                old(host).trace().len() as int,
                final(host).trace().len() as int,
                self.context(),
                self.raw(),
                Encoding::Utf16,
            ),
            viewed(result) == fetch_result(
                final(host).trace(),
                old(host).trace().len() as int,
                final(host).answer().spec_units(),
            ),
    {
        let reply = self.to_vec(host, Encoding::Utf16)?;
        let mut buffer = reply.into_units();
        buffer.pop();
        Ok(buffer)
    }

    /// The string as text. Bytes from the host that are no UTF-8 are
    /// refused, not trusted.
    pub fn to_string<H: Host>(
        &self,
        host: &mut Session<H>,
    ) -> (result: Result<std::string::String, Error>)
        ensures
            continues(old(host).trace(), final(host).trace()),
            fetched(
                final(host).trace(),
                old(host).trace().len() as int,
                final(host).trace().len() as int,
                self.context(),
                self.raw(),
                Encoding::Utf8,
            ),
            read_as_text(
                fetch_result(
                    final(host).trace(),
                    old(host).trace().len() as int,
                    final(host).answer().spec_bytes(),
                ),
                result,
            ),
    {
        let bytes = self.to_bytes(host)?;
        match decode(bytes) {
            Some(text) => Ok(text),
            None => Err(Error { kind: ErrorKind::GenericFailure, message: None, exception: None }),
        }
    }
}

impl Value for String {
    closed spec fn raw(&self) -> usize {
        self.value
    }

    closed spec fn context(&self) -> Env {
        self.env
    }

    fn as_sys_value(&self) -> usize {
        self.value
    }

    fn env(&self) -> Env {
        self.env
    }

    fn from_sys_checked<H: Host>(
        host: &mut Session<H>,
        env: Env,
        value: usize,
    ) -> (result: Result<String, Error>)
        ensures
            judged(
                final(host).trace(),
                old(host).trace().len() as int,
                final(host).trace().len() as int,
                env,
                Query::TypeOf { value },
                final(host).trace()[old(host).trace().len() as int].reply.tag()
                    == ValueType::String,
                "String expected"@,
                unit(result),
            ),
    {
        expect_tag(host, env, value, ValueType::String, "String expected")?;
        Ok(String { env, value })
    }
}

impl ValueInternal for String {
    fn construct(env: Env, value: usize) -> String {
        String { env, value }
    }
}

impl AsObject for String {
}

} // verus!
