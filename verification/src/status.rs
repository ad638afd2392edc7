use vstd::prelude::*;

verus! {

/// The status code with which the host ends every call.
#[derive(Clone, Copy, Debug, PartialEq, Eq, Structural)]
pub enum Status {
    /// The call did what was asked.
    Success,
    InvalidArg,
    ObjectExpected,
    StringExpected,
    NameExpected,
    FunctionExpected,
    NumberExpected,
    BooleanExpected,
    ArrayExpected,
    GenericFailure,
    PendingException,
    Cancelled,
    EscapeCalledTwice,
}

impl Status {
    /// Whether the host reported success.
    pub open spec fn succeeded(self) -> bool {
        self == Status::Success
    }

    /// Whether the host reported success.
    #[verifier::when_used_as_spec(succeeded)]
    pub fn is_ok(self) -> (ok: bool)
        ensures
            ok == self.succeeded(),
    {
        match self {
            Status::Success => true,
            _ => false,
        }
    }
}

} // verus!
