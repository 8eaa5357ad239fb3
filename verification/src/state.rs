//! The lifecycle of one proxied socket operation.
//!
//! An operation is in exactly one of four phases, and each phase owns a
//! payload of its own type. Moving to another phase consumes the payload of
//! the phase that is left.

use vstd::prelude::*;

verus! {

/// The phase of one socket operation, with the payload that belongs to it.
pub enum State<N, P, R> {
    /// Constructed, not yet attempted; holds the descriptor of what to attempt.
    New(N),
    /// Started, no result yet; holds the handle that is polled or waited on.
    Pending(P),
    /// Completed; holds the final value.
    Ready(R),
    /// Failed for good; holds the one error that describes the failure.
    Error(std::io::Error),
}

impl<N, P, R> State<N, P, R> {
    /// What `is_new` means in a contract.
    pub open spec fn spec_is_new(&self) -> bool {
        self is New
    }

    /// What `is_pending` means in a contract.
    pub open spec fn spec_is_pending(&self) -> bool {
        self is Pending
    }

    /// What `is_ready` means in a contract.
    pub open spec fn spec_is_ready(&self) -> bool {
        self is Ready
    }

    /// What `is_error` means in a contract.
    pub open spec fn spec_is_error(&self) -> bool {
        self is Error
    }

    /// A terminal state is one that no poll can change any more.
    pub open spec fn is_terminal(&self) -> bool {
        self is Ready || self is Error
    }

    /// The name under which a phase shows up in diagnostics.
    pub open spec fn spec_phase_name(&self) -> Seq<char> {
        match self {
            State::New(_) => "new"@,
            State::Pending(_) => "pending"@,
            State::Ready(_) => "ready"@,
            State::Error(_) => "error"@,
        }
    }

    /// What `take_error` returns and what it leaves behind, as a pair.
    pub open spec fn spec_take_error(self, replacement: Self) -> (Option<std::io::Error>, Self) {
        match self {
            State::Error(e) => (Some(e), replacement),
            _ => (None, self),
        }
    }

    /// The state that stands for an operation which completed at once with
    /// `res`.
    pub open spec fn of_outcome(res: Result<R, std::io::Error>) -> Self {
        match res {
            Ok(r) => State::Ready(r),
            Err(e) => State::Error(e),
        }
    }

    /// The result of a completed operation, if it has completed.
    pub fn as_ready(&self) -> (ready: Option<&R>)
        ensures
            ready is Some <==> self.is_ready(),
            ready is Some ==> *ready->0 == self->Ready_0,
    {
        match self {
            State::Ready(r) => Some(r),
            _ => None,
        }
    }

    /// The handle of an operation in flight, to be driven forward in place.
    ///
    /// In any other phase there is nothing to borrow and the state stays as it
    /// is. While pending, whatever the caller leaves in the handle is what the
    /// state holds afterwards, still pending.
    pub fn as_pending_mut(&mut self) -> (pending: Option<&mut P>)
        ensures
            pending is Some <==> old(self).is_pending(),
            match pending {
                Some(handle) => *handle == old(self)->Pending_0 && *final(self)
                    == State::<N, P, R>::Pending(*final(handle)),
                None => *final(self) == *old(self),
            },
    {
        match self {
            State::Pending(p) => Some(p),
            _ => None,
        }
    }

    /// Whether the operation is constructed but not yet attempted.
    #[verifier::when_used_as_spec(spec_is_new)]
    pub fn is_new(&self) -> (b: bool)
        ensures
            b == (self is New),
    {
        match self {
            State::New(_) => true,
            _ => false,
        }
    }

    /// Whether the operation is in flight.
    #[verifier::when_used_as_spec(spec_is_pending)]
    pub fn is_pending(&self) -> (b: bool)
        ensures
            b == (self is Pending),
    {
        match self {
            State::Pending(_) => true,
            _ => false,
        }
    }

    /// Whether the operation has completed with a value.
    #[verifier::when_used_as_spec(spec_is_ready)]
    pub fn is_ready(&self) -> (b: bool)
        ensures
            b == (self is Ready),
    {
        match self {
            State::Ready(_) => true,
            _ => false,
        }
    }

    /// Whether the operation has failed.
    #[verifier::when_used_as_spec(spec_is_error)]
    pub fn is_error(&self) -> (b: bool)
        ensures
            b == (self is Error),
    {
        match self {
            State::Error(_) => true,
            _ => false,
        }
    }

    /// Drains the error of a failed operation.
    ///
    /// On `Error(e)` the state becomes `replacement` and `e` goes to the
    /// caller. In every other phase the state is left alone, `replacement` is
    /// dropped and nothing is returned.
    pub fn take_error(&mut self, replacement: State<N, P, R>) -> (taken: Option<std::io::Error>)
        ensures
            (taken, *final(self)) == old(self).spec_take_error(replacement),
            taken is Some <==> old(self).is_error(),
    {
        if self.is_error() {
            let mut previous = replacement;
            core::mem::swap(self, &mut previous);
            match previous {
                State::Error(e) => Some(e),
                _ => unreached(),
            }
        } else {
            None
        }
    }

    /// The phase alone, as text: one of `"new"`, `"pending"`, `"ready"` and
    /// `"error"`. No payload is ever rendered, so neither a handle nor the
    /// text of an error reaches a log through it.
    pub fn phase_name(&self) -> (name: &'static str)
        ensures
            name@ == self.spec_phase_name(),
    {
        match self {
            State::New(_) => "new",
            State::Pending(_) => "pending",
            State::Ready(_) => "ready",
            State::Error(_) => "error",
        }
    }
}

/// The outcome of an operation that completed at once: success is `Ready`,
/// failure is `Error`.
impl<N, P, R> From<Result<R, std::io::Error>> for State<N, P, R> {
    fn from(res: Result<R, std::io::Error>) -> (state: Self) {
        match res {
            Ok(r) => State::Ready(r),
            Err(e) => State::Error(e),
        }
    }
}

impl<N, P, R> vstd::std_specs::convert::FromSpecImpl<Result<R, std::io::Error>> for State<N, P, R> {
    open spec fn obeys_from_spec() -> bool {
        true
    }

    open spec fn from_spec(res: Result<R, std::io::Error>) -> Self {
        State::of_outcome(res)
    }
}

} // verus!
