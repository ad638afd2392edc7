use vstd::prelude::*;
use vstd::string::*;

use crate::env::Env;
use crate::host::{asked, Call, CallView, ErrorClass, Host, Query, Reply, Session};
use crate::status::Status;
use crate::value::{String, Value};

verus! {

/// The closed set of failure kinds: one for each failing status of the host,
/// and one for the throwables that the application asks the host to make.
#[derive(Clone, Copy, Debug, PartialEq, Eq, Structural)]
pub enum ErrorKind {
    InvalidArg,
    ObjectExpected,
    StringExpected,
    NameExpected,
    FunctionExpected,
    NumberExpected,
    BooleanExpected,
    ArrayExpected,
    GenericFailure,
    PendingException,
    Cancelled,
    EscapeCalledTwice,
    ApplicationError,
}

/// A failure: its kind, an optional message, and the host's exception where
/// one was already made.
#[derive(Clone, Debug)]
pub struct Error {
    pub kind: ErrorKind,
    pub message: Option<std::string::String>,
    pub exception: Option<usize>,
}

impl ErrorKind {
    /// The kind that stands for a failing status.
    pub open spec fn of(status: Status) -> ErrorKind
        recommends
            !status.succeeded(),
    {
        match status {
            Status::Success => arbitrary(),
            Status::InvalidArg => ErrorKind::InvalidArg,
            Status::ObjectExpected => ErrorKind::ObjectExpected,
            Status::StringExpected => ErrorKind::StringExpected,
            Status::NameExpected => ErrorKind::NameExpected,
            Status::FunctionExpected => ErrorKind::FunctionExpected,
            Status::NumberExpected => ErrorKind::NumberExpected,
            Status::BooleanExpected => ErrorKind::BooleanExpected,
            Status::ArrayExpected => ErrorKind::ArrayExpected,
            Status::GenericFailure => ErrorKind::GenericFailure,
            Status::PendingException => ErrorKind::PendingException,
            Status::Cancelled => ErrorKind::Cancelled,
            Status::EscapeCalledTwice => ErrorKind::EscapeCalledTwice,
        }
    }

    /// The kind of a failing status. The success status is no failure and has
    /// no kind: a caller tests for it first.
    pub fn from_napi_status(status: Status) -> (kind: ErrorKind)
        requires
            !status.succeeded(),
        ensures
            kind == ErrorKind::of(status),
            kind != ErrorKind::ApplicationError,
    {
        match status {
            Status::InvalidArg => ErrorKind::InvalidArg,
            Status::ObjectExpected => ErrorKind::ObjectExpected,
            Status::StringExpected => ErrorKind::StringExpected,
            Status::NameExpected => ErrorKind::NameExpected,
            Status::FunctionExpected => ErrorKind::FunctionExpected,
            Status::NumberExpected => ErrorKind::NumberExpected,
            Status::BooleanExpected => ErrorKind::BooleanExpected,
            Status::ArrayExpected => ErrorKind::ArrayExpected,
            Status::GenericFailure => ErrorKind::GenericFailure,
            Status::PendingException => ErrorKind::PendingException,
            Status::Cancelled => ErrorKind::Cancelled,
            _ => ErrorKind::EscapeCalledTwice,
        }
    }
}

impl Error {
    /// The error that a failing status of the host becomes.
    pub open spec fn failure(status: Status) -> Error
        recommends
            !status.succeeded(),
    {
        Error { kind: ErrorKind::of(status), message: None, exception: None }
    }

    /// What comes of asking the host for a throwable: an application error
    /// that carries the new exception, or the error of the failing status.
    pub open spec fn thrown(reply: Reply) -> Error {
        if reply.status.succeeded() {
            Error {
                kind: ErrorKind::ApplicationError,
                message: None,
                exception: Some(reply.handle()),
            }
        } else {
            Error::failure(reply.status)
        }
    }

    /// The fixed description of a kind.
    pub open spec fn text(kind: ErrorKind) -> Seq<char> {
        match kind {
            ErrorKind::InvalidArg => "NapiError: invalid argument"@,
            ErrorKind::ObjectExpected => "NapiError: object expected"@,
            ErrorKind::StringExpected => "NapiError: string expected"@,
            ErrorKind::NameExpected => "NapiError: name expected"@,
            ErrorKind::FunctionExpected => "NapiError: function expected"@,
            ErrorKind::NumberExpected => "NapiError: number expected"@,
            ErrorKind::BooleanExpected => "NapiError: boolean argument"@,
            ErrorKind::ArrayExpected => "NapiError: array expected"@,
            ErrorKind::GenericFailure => "NapiError: generic failure"@,
            ErrorKind::PendingException => "NapiError: pending exception"@,
            ErrorKind::Cancelled => "NapiError: cancelled"@,
            ErrorKind::EscapeCalledTwice => "NapiError: escape called twice"@,
            ErrorKind::ApplicationError => "NapiError: application error"@,
        }
    }

    /// The message in brackets, where there is one.
    pub open spec fn context_text(&self) -> Seq<char> {
        match self.message {
            Some(message) => " ("@ + message@ + ")"@,
            None => Seq::empty(),
        }
    }

    /// The note on the exception, where one is attached.
    pub open spec fn exception_text(&self) -> Seq<char> {
        if self.exception is Some {
            ", JavaScript exception attached"@
        } else {
            Seq::empty()
        }
    }

    /// The error as shown to a reader: the description of its kind, then the
    /// message in brackets, then the note on the exception.
    pub open spec fn display(&self) -> Seq<char> {
        Error::text(self.kind) + self.context_text() + self.exception_text()
    }

    /// The description of the error's kind.
    pub fn description(&self) -> (text: &'static str)
        ensures
            text@ == Error::text(self.kind),
    {
        match self.kind {
            ErrorKind::InvalidArg => "NapiError: invalid argument",
            ErrorKind::ObjectExpected => "NapiError: object expected",
            ErrorKind::StringExpected => "NapiError: string expected",
            ErrorKind::NameExpected => "NapiError: name expected",
            ErrorKind::FunctionExpected => "NapiError: function expected",
            ErrorKind::NumberExpected => "NapiError: number expected",
            ErrorKind::BooleanExpected => "NapiError: boolean argument",
            ErrorKind::ArrayExpected => "NapiError: array expected",
            ErrorKind::GenericFailure => "NapiError: generic failure",
            ErrorKind::PendingException => "NapiError: pending exception",
            ErrorKind::Cancelled => "NapiError: cancelled",
            ErrorKind::EscapeCalledTwice => "NapiError: escape called twice",
            ErrorKind::ApplicationError => "NapiError: application error",
        }
    }

    /// The error as shown to a reader.
    pub fn to_string(&self) -> (text: std::string::String)
        ensures
            text@ == self.display(),
    {
        let mut text = self.description().to_owned();
        match &self.message {
            Some(message) => {
                text.append(" (");
                text.append(message.as_str());
                text.append(")");
                assert(text@ =~= Error::text(self.kind) + self.context_text());
            },
            None => {
                assert(text@ =~= Error::text(self.kind) + self.context_text());
            },
        }
        if self.exception.is_some() {
            text.append(", JavaScript exception attached");
        } else {
            assert(text@ =~= self.display());
        }
        text
    }

    /// Asks the host for a throwable of `class` whose message is the host
    /// string `message`.
    pub(crate) fn create<H: Host>(
        host: &mut Session<H>,
        env: Env,
        class: ErrorClass,
        message: usize,
    ) -> (error: Error)
        ensures
            asked(
                old(host).trace(),
                final(host).trace(),
                env,
                CallView::Ask(Query::CreateError { class, message }),
            ),
            error == Error::thrown(final(host).answer()),
    {
        let reply = host.call(env, Call::Ask(Query::CreateError { class, message }));
        if let Err(error) = env.handle_status(reply.status) {
            return error;
        }
        Error {
            kind: ErrorKind::ApplicationError,
            message: None,
            exception: Some(reply.handle()),
        }
    }

    /// Asks the host for a plain error with `message` and carries it.
    pub fn error<H: Host>(host: &mut Session<H>, env: Env, message: &String) -> (error: Error)
        ensures
            asked(
                old(host).trace(),
                final(host).trace(),
                env,
                CallView::Ask(
                    Query::CreateError { class: ErrorClass::Error, message: message.raw() },
                ),
            ),
            error == Error::thrown(final(host).answer()),
    {
        Error::create(host, env, ErrorClass::Error, message.as_sys_value())
    }

    /// Asks the host for a type error with `message` and carries it.
    pub fn type_error<H: Host>(host: &mut Session<H>, env: Env, message: &String) -> (error: Error)
        ensures
            asked(
                old(host).trace(),
                final(host).trace(),
                env,
                CallView::Ask(
                    Query::CreateError { class: ErrorClass::TypeError, message: message.raw() },
                ),
            ),
            error == Error::thrown(final(host).answer()),
    {
        Error::create(host, env, ErrorClass::TypeError, message.as_sys_value())
    }

    /// Asks the host for a range error with `message` and carries it.
    pub fn range_error<H: Host>(host: &mut Session<H>, env: Env, message: &String) -> (error: Error)
        ensures
            asked(
                old(host).trace(),
                final(host).trace(),
                env,
                CallView::Ask(
                    Query::CreateError { class: ErrorClass::RangeError, message: message.raw() },
                ),
            ),
            error == Error::thrown(final(host).answer()),
    {
        Error::create(host, env, ErrorClass::RangeError, message.as_sys_value())
    }
}

} // verus!
