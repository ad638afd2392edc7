use vstd::prelude::*;

use crate::result::{Error, ErrorKind};
use crate::status::Status;

verus! {

/// A copy of the host's reference to the context of one call.
///
/// It owns nothing. Two handles are equal when they refer to the same
/// context.
#[derive(Clone, Copy, Debug, PartialEq, Eq, Structural)]
pub struct Env {
    raw: usize,
}

impl Env {
    /// The context's address, as the host handed it over.
    pub closed spec fn address(self) -> usize {
        self.raw
    }

    /// The handle for the context at `raw`.
    pub closed spec fn at(raw: usize) -> Env {
        Env { raw }
    }

    /// A handle is its address and nothing else.
    pub broadcast proof fn lemma_at_address(raw: usize)
        ensures
            (#[trigger] Env::at(raw)).address() == raw,
    {
    }

    /// Two handles are equal exactly when they refer to the same context.
    pub proof fn lemma_equal_by_address(first: Env, second: Env)
        ensures
            first == second <==> first.address() == second.address(),
    {
    }

    /// What a status code amounts to: success, or the error of its kind with
    /// neither message nor exception.
    pub open spec fn outcome(status: Status) -> Result<(), Error> {
        if status.succeeded() {
            Ok(())
        } else {
            Err(Error::failure(status))
        }
    }

    pub fn as_sys_env(&self) -> (raw: usize)
        ensures
            raw == self.address(),
    {
        self.raw
    }

    /// Turns the status of a host call into a result. Every host call goes through
    /// here.
    pub fn handle_status(&self, status: Status) -> (result: Result<(), Error>)
        ensures
            result == Env::outcome(status),
    {
        if status.is_ok() {
            Ok(())
        } else {
            Err(Error { kind: ErrorKind::from_napi_status(status), message: None, exception: None })
        }
    }
}

impl From<usize> for Env {
    fn from(raw: usize) -> (env: Env) {
        Env { raw }
    }
}

impl vstd::std_specs::convert::FromSpecImpl<usize> for Env {
    open spec fn obeys_from_spec() -> bool {
        true
    }

    open spec fn from_spec(raw: usize) -> Env {
        Env::at(raw)
    }
}

} // verus!
